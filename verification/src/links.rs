//! Finding the guilds that a piece of text links to.

use vstd::prelude::*;
use vstd::string::*;
use crate::address::{url_parse, Url, UrlView};
use crate::text::{chars_of, parse_u64_in, parse_u64_spec, range_eq, str_eq};

verus! {

/// The links that `linkify::LinkFinder::links` finds in `text`, in the order
/// in which they stand there, each as the text it spans. The finder looks for
/// URLs only, and for those without a scheme too unless `scheme_required`.
pub uninterp spec fn scan_links(text: Seq<char>, scheme_required: bool) -> Seq<Seq<char>>;

/// The character sequences that the strings of `items` hold.
pub open spec fn strings_view(items: Seq<String>) -> Seq<Seq<char>> {
    Seq::new(items.len(), |i: int| items[i]@)
}

/// Runs a `linkify::LinkFinder` restricted to URLs over `text` and collects
/// what `Link::as_str` gives for each link found. The contract claims only
/// that this is what `scan_links` names.
#[verifier::external_body]
fn url_links(text: &str, scheme_required: bool) -> (links: Vec<String>)
    ensures
        strings_view(links@) == scan_links(text@, scheme_required),
{
    let mut finder = linkify::LinkFinder::new();
    finder.kinds(&[linkify::LinkKind::Url]);
    finder.url_must_have_scheme(scheme_required);
    finder.links(text).map(|link| link.as_str().to_string()).collect()
}

/// Whether `domain` is one of the chat platform's own.
pub open spec fn is_chat_domain(domain: Seq<char>) -> bool {
    domain == "discord.com"@ || domain == "discordapp.com"@
}

/// Where the path segment that starts at `from` ends: at the next `/`, or at
/// the end of the path.
pub open spec fn segment_end(path: Seq<char>, from: int) -> int
    decreases path.len() - from,
{
    if from < 0 || from >= path.len() || path[from] == '/' {
        from
    } else {
        segment_end(path, from + 1)
    }
}

/// The guild that a URL path names: the path's first segment is `channels`,
/// a second segment follows, and that one is an unsigned 64-bit numeral.
pub open spec fn path_guild_id(path: Seq<char>) -> Option<u64> {
    if path.len() > 0 && path[0] == '/' {
        let first_end = segment_end(path, 1);
        if path.subrange(1, first_end) == "channels"@ && first_end < path.len() {
            parse_u64_spec(path.subrange(first_end + 1, segment_end(path, first_end + 1)))
        } else {
            None
        }
    } else {
        None
    }
}

/// The guild that a host and a path refer to: the host is a chat domain and
/// the path names a guild.
pub open spec fn located_guild_id(domain: Option<Seq<char>>, path: Seq<char>) -> Option<u64> {
    match domain {
        Some(domain) => if is_chat_domain(domain) {
            path_guild_id(path)
        } else {
            None
        },
        None => None,
    }
}

/// The guild that a URL refers to, by its host and its path.
pub open spec fn url_guild_id(url: UrlView) -> Option<u64> {
    located_guild_id(url.domain, url.path)
}

/// The guild that a link refers to; none where the link is no absolute URL.
pub open spec fn link_guild_id(link: Seq<char>) -> Option<u64> {
    match url_parse(link) {
        Some(url) => url_guild_id(url),
        None => None,
    }
}

/// Whether `link`, as it stands, is an absolute URL whose host is a domain
/// name.
pub open spec fn names_host(link: Seq<char>) -> bool {
    match url_parse(link) {
        Some(url) => url.domain is Some,
        None => false,
    }
}

/// The address that a link found in a text stands for: the link itself where
/// it names a host, else the link after `https://`. A link written without a
/// scheme, as a bare host and path, is thus read as a web address.
pub open spec fn link_address(link: Seq<char>) -> Seq<char> {
    if names_host(link) {
        link
    } else {
        "https://"@ + link
    }
}

/// The guild that a link found in a text refers to: the guild of the address
/// that it stands for.
pub open spec fn found_guild_id(link: Seq<char>) -> Option<u64> {
    link_guild_id(link_address(link))
}

/// The guilds that the links refer to, one for each link that names one, in
/// the order of the links. Nothing is left out for occurring twice.
pub open spec fn guild_ids_of(links: Seq<Seq<char>>) -> Seq<u64>
    decreases links.len(),
{
    if links.len() == 0 {
        Seq::empty()
    } else {
        let before = guild_ids_of(links.drop_last());
        match found_guild_id(links.last()) {
            Some(id) => before.push(id),
            None => before,
        }
    }
}

/// The guilds that `text` links to.
pub open spec fn guild_ids_in(text: Seq<char>) -> Seq<u64> {
    guild_ids_of(scan_links(text, false))
}

fn segment_end_at(path: &Vec<char>, from: usize) -> (end: usize)
    requires
        from <= path@.len(),
    ensures
        end == segment_end(path@, from as int),
        from <= end <= path@.len(),
{
    let mut end: usize = from;
    while end < path.len() && path[end] != '/'
        invariant
            from <= end <= path@.len(),
            segment_end(path@, from as int) == segment_end(path@, end as int),
        decreases path@.len() - end,
    {
        end += 1;
    }
    end
}

/// The guild that a host and a path refer to, if they refer to one.
pub fn guild_id_at(domain: Option<&str>, path: &str) -> (id: Option<u64>)
    ensures
        id == (match domain {
            Some(d) => located_guild_id(Some(d@), path@),
            None => None,
        }),
{
    match domain {
        None => None,
        Some(domain) => {
            if !str_eq(domain, "discord.com") && !str_eq(domain, "discordapp.com") {
                return None;
            }
            let path = chars_of(path);
            if path.len() == 0 || path[0] != '/' {
                return None;
            }
            let first_end: usize = segment_end_at(&path, 1);
            if first_end == path.len() || !range_eq(&path, 1, first_end, "channels") {
                return None;
            }
            let second_end: usize = segment_end_at(&path, first_end + 1);
            parse_u64_in(&path, first_end + 1, second_end)
        },
    }
}

/// The guild that `url` refers to, if it refers to one.
pub fn guild_id_of(url: &Url) -> (id: Option<u64>)
    ensures
        id == url_guild_id(url@),
{
    guild_id_at(url.domain(), url.path())
}

/// The guild that a link refers to: the link is an absolute URL on a chat
/// domain whose path names a guild.
pub fn url_filter(link: &str) -> (id: Option<u64>)
    ensures
        id == link_guild_id(link@),
{
    match Url::parse(link) {
        Some(url) => guild_id_of(&url),
        None => None,
    }
}

/// The guild that a link found in a text refers to. A link that is no URL
/// with a host name as it stands is read as the web address that it makes
/// after `https://`.
pub fn link_filter(link: &str) -> (id: Option<u64>)
    ensures
        id == found_guild_id(link@),
{
    match Url::parse(link) {
        Some(url) => {
            if url.domain().is_some() {
                return guild_id_of(&url);
            }
        },
        None => {},
    }
    let mut address = "https://".to_owned();
    address.append(link);
    url_filter(address.as_str())
}

/// The guilds that `links` refer to, in order.
pub fn guild_ids_among(links: &Vec<String>) -> (ids: Vec<u64>)
    ensures
        ids@ == guild_ids_of(strings_view(links@)),
{
    let mut ids: Vec<u64> = Vec::new();
    let ghost all = strings_view(links@);
    let mut i: usize = 0;
    assert(all.take(0) =~= Seq::<Seq<char>>::empty());
    while i < links.len()
        invariant
            i <= links@.len(),
            all == strings_view(links@),
            ids@ == guild_ids_of(all.take(i as int)),
        decreases links@.len() - i,
    {
        proof {
            let next = all.take(i + 1);
            assert(next.drop_last() =~= all.take(i as int));
            assert(next.last() == links@[i as int]@);
        }
        match link_filter(links[i].as_str()) {
            Some(id) => {
                ids.push(id);
            },
            None => {},
        }
        i += 1;
    }
    assert(all.take(links@.len() as int) =~= all);
    ids
}

/// The guilds that `text` links to, in the order in which the links stand in
/// it.
pub fn find_guild_ids(text: &str) -> (ids: Vec<u64>)
    ensures
        ids@ == guild_ids_in(text@),
{
    let links = url_links(text, false);
    guild_ids_among(&links)
}

} // verus!
