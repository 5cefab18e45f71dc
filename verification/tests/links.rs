use guildly::find_guild_ids;
use guildly::database::Database;
use guildly::links::{guild_id_at, guild_id_of, link_filter, url_filter};
use guildly::GuildlyHandler;
use guildly::Url;

#[test]
fn finds_the_guild_of_a_channel_link() {
    assert_eq!(
        find_guild_ids("check https://discord.com/channels/123456789 out"),
        vec![123456789u64]
    );
}

#[test]
fn skips_a_link_to_another_host() {
    assert_eq!(find_guild_ids("https://example.com/channels/123"), Vec::<u64>::new());
}

#[test]
fn skips_a_link_without_a_number() {
    assert_eq!(find_guild_ids("https://discord.com/channels/notanumber"), Vec::<u64>::new());
}

#[test]
fn keeps_order_and_repeats() {
    let text = "a https://discordapp.com/channels/7/8 b https://discord.com/channels/5 c https://discord.com/channels/7";
    assert_eq!(find_guild_ids(text), vec![7u64, 5, 7]);
}

#[test]
fn finds_the_guild_of_a_link_without_a_scheme() {
    assert_eq!(find_guild_ids("see discord.com/channels/42 there"), vec![42u64]);
    assert_eq!(find_guild_ids("see discord.com/channels/42 now"), vec![42u64]);
    assert_eq!(find_guild_ids("discordapp.com/channels/7/8"), vec![7u64]);
}

#[test]
fn the_handler_finds_links_without_a_scheme() {
    let handler = GuildlyHandler::new(Database::open(&[]));
    assert_eq!(handler.guild_link_finder("see discord.com/channels/42 now"), vec![42u64]);
    assert_eq!(
        handler.guild_link_finder("discord.com/channels/1 and https://discord.com/channels/2"),
        vec![1u64, 2]
    );
}

#[test]
fn bare_links_to_other_hosts_name_no_guild() {
    assert_eq!(find_guild_ids("see example.com/channels/42 there"), Vec::<u64>::new());
    assert_eq!(find_guild_ids("see discord.com/channels/abc there"), Vec::<u64>::new());
    assert_eq!(find_guild_ids("see discord.com/invite/42 there"), Vec::<u64>::new());
}

#[test]
fn a_found_link_is_read_as_a_web_address() {
    assert_eq!(link_filter("discord.com/channels/42"), Some(42));
    assert_eq!(link_filter("discord.com:443/channels/42"), Some(42));
    assert_eq!(link_filter("https://discord.com/channels/42"), Some(42));
    assert_eq!(link_filter("http://discordapp.com/channels/9/1"), Some(9));
    assert_eq!(link_filter("example.com/channels/42"), None);
    assert_eq!(link_filter("127.0.0.1/channels/42"), None);
    assert_eq!(link_filter("https://127.0.0.1/channels/42"), None);
    assert_eq!(link_filter("discord.com/channels/x"), None);
    assert_eq!(link_filter("discord.com"), None);
    assert_eq!(link_filter(""), None);
}

#[test]
fn the_guild_rule_on_a_host_and_a_path() {
    assert_eq!(guild_id_at(Some("discord.com"), "/channels/42"), Some(42));
    assert_eq!(guild_id_at(Some("discordapp.com"), "/channels/42/43"), Some(42));
    assert_eq!(guild_id_at(Some("discord.com"), "/channels/+42"), Some(42));
    assert_eq!(guild_id_at(Some("discord.com"), "/channels/"), None);
    assert_eq!(guild_id_at(Some("discord.com"), "/channels"), None);
    assert_eq!(guild_id_at(Some("discord.com"), "channels/42"), None);
    assert_eq!(guild_id_at(Some("discord.com"), "//channels/42"), None);
    assert_eq!(guild_id_at(Some("discord.com"), "/Channels/42"), None);
    assert_eq!(guild_id_at(Some("discord.com"), ""), None);
    assert_eq!(guild_id_at(Some("example.com"), "/channels/42"), None);
    assert_eq!(guild_id_at(Some("Discord.com"), "/channels/42"), None);
    assert_eq!(guild_id_at(None, "/channels/42"), None);
}

#[test]
fn plain_text_has_no_guilds() {
    assert_eq!(find_guild_ids("nothing to see here"), Vec::<u64>::new());
}

#[test]
fn filter_reads_the_second_segment() {
    assert_eq!(url_filter("https://discord.com/channels/42/99"), Some(42));
    assert_eq!(url_filter("https://discord.com/channels"), None);
    assert_eq!(url_filter("https://discord.com/channels/"), None);
    assert_eq!(url_filter("https://discord.com/invite/42"), None);
    assert_eq!(url_filter("https://sub.discord.com/channels/42"), None);
    assert_eq!(url_filter("https://127.0.0.1/channels/42"), None);
    assert_eq!(url_filter("not a url"), None);
    assert_eq!(url_filter("https://discord.com/channels/18446744073709551615"), Some(u64::MAX));
    assert_eq!(url_filter("https://discord.com/channels/18446744073709551616"), None);
}

#[test]
fn guild_id_of_a_parsed_url() {
    let url = Url::parse("https://DISCORD.com/channels/0012?x=1#frag").unwrap();
    assert_eq!(url.domain(), Some("discord.com"));
    assert_eq!(url.path(), "/channels/0012");
    assert_eq!(guild_id_of(&url), Some(12));
}

#[test]
fn url_is_canonical() {
    let url = Url::parse("HTTPS://Example.COM").unwrap();
    assert_eq!(url.as_str(), "https://example.com/");
    assert!(Url::parse("example.com").is_none());
    assert!(Url::parse("").is_none());
    assert_eq!(url.clone(), url);
}
