use guildly::embed::{Author, Field};
use guildly::{create_embed_from_entries, create_embed_from_entry, Color, Embed, GuildEntry, Url};

fn entry(id: u64, name: &str, invite: Option<&str>, icon: Option<&str>) -> GuildEntry {
    GuildEntry {
        name: name.to_string(),
        guild_id: id,
        invite_url: invite.map(|text| Url::parse(text).unwrap()),
        icon_url: icon.map(|text| Url::parse(text).unwrap()),
    }
}

#[test]
fn colours_are_the_platform_s() {
    assert_eq!(Color::INFO, 0x6FC6E2);
    assert_eq!(Color::WARN, 0xE67E22);
    assert_eq!(Color::ERROR, 0xE74C3C);
}

#[test]
fn one_entry_is_an_author_card() {
    let embed = create_embed_from_entry(&entry(1, "One", Some("https://discord.gg/one"), Some("https://cdn.example/1.png")));
    assert_eq!(
        embed,
        Embed {
            color: Color::INFO,
            title: None,
            author: Some(Author {
                name: "One".to_string(),
                link: Some("https://discord.gg/one".to_string()),
                icon: Some("https://cdn.example/1.png".to_string()),
            }),
            fields: vec![],
        }
    );
    let bare = create_embed_from_entry(&entry(2, "Two", None, None));
    assert_eq!(bare.author, Some(Author { name: "Two".to_string(), link: None, icon: None }));
}

#[test]
fn no_entries_is_a_warning() {
    let embed = create_embed_from_entries(&[]);
    assert_eq!(embed, Embed { color: Color::WARN, title: Some("No Servers Found".to_string()), author: None, fields: vec![] });
}

#[test]
fn a_single_entry_renders_as_its_card() {
    let only = entry(1, "One", Some("https://discord.gg/one"), None);
    assert_eq!(create_embed_from_entries(&[entry(1, "One", Some("https://discord.gg/one"), None)]), create_embed_from_entry(&only));
}

#[test]
fn three_entries_render_three_fields_in_order() {
    let entries = [
        entry(1, "One", Some("https://discord.gg/one"), None),
        entry(2, "Two", None, Some("https://cdn.example/2.png")),
        entry(3, "Three", Some("https://discord.gg/three"), None),
    ];
    let embed = create_embed_from_entries(&entries);
    assert_eq!(embed.color, Color::INFO);
    assert_eq!(embed.title, Some("Servers".to_string()));
    assert_eq!(embed.author, None);
    assert_eq!(
        embed.fields,
        vec![
            Field { label: "[One](https://discord.gg/one)".to_string(), value: String::new(), inline: false },
            Field { label: "Two".to_string(), value: String::new(), inline: false },
            Field { label: "[Three](https://discord.gg/three)".to_string(), value: String::new(), inline: false },
        ]
    );
}

#[test]
fn notice_and_title() {
    let embed = Embed::notice(Color::ERROR, "Invalid Server ID");
    assert_eq!(embed.title, Some("Invalid Server ID".to_string()));
    assert_eq!(embed.color, Color::ERROR);
    let renamed = embed.title("Other");
    assert_eq!(renamed, Embed { color: Color::ERROR, title: Some("Other".to_string()), author: None, fields: vec![] });
}
