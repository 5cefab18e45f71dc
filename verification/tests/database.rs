use guildly::database::Database;
use guildly::{GuildEntry, Row, Url};

fn entry(id: u64, name: &str, invite: Option<&str>, icon: Option<&str>) -> GuildEntry {
    GuildEntry {
        name: name.to_string(),
        guild_id: id,
        invite_url: invite.map(|text| Url::parse(text).unwrap()),
        icon_url: icon.map(|text| Url::parse(text).unwrap()),
    }
}

#[test]
fn upsert_then_get_returns_the_entry() {
    let mut db = Database::open(&[]);
    let stored = entry(7, "Seven", Some("https://discord.gg/seven"), Some("https://cdn.example/7.png"));
    assert_eq!(db.insert(&stored), None);
    assert_eq!(db.get(7), Some(stored));
    assert_eq!(db.get(8), None);
}

#[test]
fn second_upsert_wins_and_returns_the_first() {
    let mut db = Database::open(&[]);
    let first = entry(7, "Seven", Some("https://discord.gg/seven"), None);
    let second = entry(7, "Sept", None, Some("https://cdn.example/sept.png"));
    assert_eq!(db.insert(&first), None);
    assert_eq!(db.insert(&second), Some(first));
    assert_eq!(db.get(7), Some(second));
    assert_eq!(db.export().len(), 1);
}

#[test]
fn remove_returns_the_entry_and_leaves_none() {
    let mut db = Database::open(&[]);
    let a = entry(1, "One", None, None);
    let b = entry(2, "Two", None, None);
    db.insert(&a);
    db.insert(&b);
    assert_eq!(db.remove(1), Some(entry(1, "One", None, None)));
    assert_eq!(db.get(1), None);
    assert_eq!(db.get(2), Some(entry(2, "Two", None, None)));
    assert_eq!(db.export(), vec![entry(2, "Two", None, None)]);
}

#[test]
fn remove_of_an_absent_id_changes_nothing() {
    let mut db = Database::open(&[]);
    db.insert(&entry(1, "One", None, None));
    let before = db.export();
    assert_eq!(db.remove(99), None);
    assert_eq!(db.export(), before);
}

#[test]
fn search_holds_exactly_the_matching_names() {
    let mut db = Database::open(&[]);
    db.insert(&entry(1, "Rust Community", None, None));
    db.insert(&entry(2, "Gophers", None, None));
    db.insert(&entry(3, "trusty", None, None));
    db.insert(&entry(4, "RUST", None, None));
    let found: Vec<u64> = db.search("rust").iter().map(|e| e.guild_id).collect();
    assert_eq!(found, vec![1, 3, 4]);
    assert_eq!(db.search("zig"), Vec::<GuildEntry>::new());
    assert_eq!(db.search("").len(), 4);
    assert_eq!(db.search("%"), Vec::<GuildEntry>::new());
}

#[test]
fn replacing_keeps_the_place_in_the_table() {
    let mut db = Database::open(&[]);
    db.insert(&entry(1, "a", None, None));
    db.insert(&entry(2, "b", None, None));
    db.insert(&entry(1, "c", None, None));
    let names: Vec<String> = db.export().into_iter().map(|e| e.name).collect();
    assert_eq!(names, vec!["c".to_string(), "b".to_string()]);
}

#[test]
fn import_stores_each_entry_in_order() {
    let mut db = Database::open(&[]);
    db.insert(&entry(1, "old", None, None));
    db.import(&[entry(2, "two", None, None), entry(1, "new", None, None), entry(2, "deux", None, None)]);
    assert_eq!(db.export(), vec![entry(1, "new", None, None), entry(2, "deux", None, None)]);
    db.import(&[]);
    assert_eq!(db.export().len(), 2);
}

#[test]
fn export_then_import_gives_the_same_table() {
    let mut db = Database::open(&[]);
    db.insert(&entry(5, "five", Some("https://discord.gg/five"), None));
    db.insert(&entry(6, "six", None, Some("https://cdn.example/6.png")));
    let mut copy = Database::open(&[]);
    copy.import(&db.export());
    assert_eq!(copy.export(), db.export());
}

#[test]
fn open_reads_rows_as_entries() {
    let rows = vec![
        Row { guild_id: 42, name: "Answer".to_string(), invite_url: Some("https://discord.gg/answer".to_string()), icon_url: None },
        Row { guild_id: -1, name: "Max".to_string(), invite_url: Some("not a url".to_string()), icon_url: Some("HTTPS://CDN.example".to_string()) },
    ];
    let db = Database::open(&rows);
    assert_eq!(db.get(42), Some(entry(42, "Answer", Some("https://discord.gg/answer"), None)));
    let max = db.get(u64::MAX).unwrap();
    assert_eq!(max.name, "Max");
    assert_eq!(max.invite_url, None);
    assert_eq!(max.icon_url.unwrap().as_str(), "https://cdn.example/");
}

#[test]
fn rows_round_trip() {
    let stored = entry(9223372036854775808, "Big", Some("https://discord.gg/big"), None);
    let row = stored.to_row();
    assert_eq!(row.guild_id, i64::MIN);
    assert_eq!(row.name, "Big");
    assert_eq!(row.invite_url, Some("https://discord.gg/big".to_string()));
    assert_eq!(row.icon_url, None);
    assert_eq!(GuildEntry::from_row(&row), stored);
    assert_eq!(entry(0, "z", None, None).to_row().guild_id, 0);
    assert_eq!(entry(u64::MAX, "m", None, None).to_row().guild_id, -1);
    assert_eq!(entry(9223372036854775807, "m", None, None).to_row().guild_id, i64::MAX);
    assert_eq!(stored.clone(), stored);
}
