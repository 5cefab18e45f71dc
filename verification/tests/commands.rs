use guildly::commands::add::AddServer;
use guildly::commands::remove::RemoveServer;
use guildly::commands::search::{SearchRequest, SearchServer};
use guildly::commands::show_menu::ShowServersMenu;
use guildly::commands::{Change, Command, GuildlyCommand, Outcome};
use guildly::database::Database;
use guildly::embed::Author;
use guildly::interaction::{CommandDeclaration, CommandKind, CommandOption, Interaction, OptionDeclaration};
use guildly::{Color, Dispatch, Embed, GuildEntry, GuildlyHandler, Row, Url};

fn entry(id: u64, name: &str, invite: Option<&str>, icon: Option<&str>) -> GuildEntry {
    GuildEntry {
        name: name.to_string(),
        guild_id: id,
        invite_url: invite.map(|text| Url::parse(text).unwrap()),
        icon_url: icon.map(|text| Url::parse(text).unwrap()),
    }
}

fn invoke(name: &str, options: &[(&str, &str)]) -> Interaction {
    Interaction {
        name: name.to_string(),
        options: options
            .iter()
            .map(|(name, value)| CommandOption { name: name.to_string(), value: value.to_string() })
            .collect(),
        messages: vec![],
    }
}

fn select(messages: &[&str]) -> Interaction {
    Interaction {
        name: "show servers".to_string(),
        options: vec![],
        messages: messages.iter().map(|m| m.to_string()).collect(),
    }
}

fn refusal(title: &str) -> Outcome {
    Outcome { embed: Embed::notice(Color::ERROR, title), change: Change::Nothing }
}

#[test]
fn add_stores_the_guild() {
    let mut db = Database::open(&[]);
    let outcome = AddServer.execute(&mut db, &invoke("add", &[("id", "42"), ("name", "Test Guild")]));
    assert_eq!(db.get(42), Some(entry(42, "Test Guild", None, None)));
    assert_eq!(outcome.embed.color, Color::INFO);
    assert_eq!(outcome.embed.title, Some("Server Added".to_string()));
    assert_eq!(outcome.embed.author, Some(Author { name: "Test Guild".to_string(), link: None, icon: None }));
    assert_eq!(outcome.change, Change::Stored(entry(42, "Test Guild", None, None)));
}

#[test]
fn add_refuses_an_id_that_is_no_number() {
    let mut db = Database::open(&[]);
    db.insert(&entry(1, "One", None, None));
    let before = db.export();
    let outcome = AddServer.execute(&mut db, &invoke("add", &[("id", "abc"), ("name", "X")]));
    assert_eq!(outcome, refusal("Invalid Server ID"));
    assert_eq!(db.export(), before);
}

#[test]
fn add_takes_urls_in_canonical_form() {
    let mut db = Database::open(&[]);
    let outcome = AddServer.execute(
        &mut db,
        &invoke("add", &[("invite", "HTTPS://Discord.GG/abc"), ("icon", "https://cdn.example"), ("name", "N"), ("id", "5")]),
    );
    let stored = db.get(5).unwrap();
    assert_eq!(stored.invite_url.as_ref().unwrap().as_str(), "https://discord.gg/abc");
    assert_eq!(stored.icon_url.as_ref().unwrap().as_str(), "https://cdn.example/");
    assert_eq!(
        outcome.embed.author,
        Some(Author {
            name: "N".to_string(),
            link: Some("https://discord.gg/abc".to_string()),
            icon: Some("https://cdn.example/".to_string()),
        })
    );
}

#[test]
fn add_reports_each_fault() {
    let mut db = Database::open(&[]);
    let cases: Vec<(Vec<(&str, &str)>, &str)> = vec![
        (vec![("id", "1"), ("name", "n"), ("icon", "nope")], "Invalid Icon URL"),
        (vec![("id", "1"), ("name", "n"), ("invite", "nope")], "Invalid Icon URL"),
        (vec![("id", "1")], "No Guild Name"),
        (vec![("name", "n")], "No Guild ID"),
        (vec![], "No Guild Name"),
        (vec![("icon", "nope"), ("id", "x")], "Invalid Icon URL"),
        (vec![("id", "x"), ("icon", "nope")], "Invalid Server ID"),
        (vec![("id", "1"), ("id", "x"), ("name", "n")], "Invalid Server ID"),
        (vec![("id", "-5"), ("name", "n")], "Invalid Server ID"),
    ];
    for (options, title) in cases {
        assert_eq!(AddServer::request(&invoke("add", &options).options), Err(title));
        assert_eq!(AddServer.execute(&mut db, &invoke("add", &options)), refusal(title));
    }
    assert_eq!(db.export(), Vec::<GuildEntry>::new());
}

#[test]
fn add_counts_the_last_of_repeated_options() {
    let options = invoke("add", &[("id", "1"), ("name", "a"), ("id", "2"), ("name", "b"), ("other", "x")]).options;
    assert_eq!(AddServer::request(&options), Ok(entry(2, "b", None, None)));
}

#[test]
fn add_replaces_an_entry() {
    let mut db = Database::open(&[]);
    AddServer.execute(&mut db, &invoke("add", &[("id", "42"), ("name", "Old"), ("invite", "https://discord.gg/old")]));
    AddServer.execute(&mut db, &invoke("add", &[("id", "42"), ("name", "New")]));
    assert_eq!(db.export(), vec![entry(42, "New", None, None)]);
}

#[test]
fn remove_takes_the_guild_out() {
    let mut db = Database::open(&[]);
    db.insert(&entry(42, "Gone", Some("https://discord.gg/gone"), None));
    let outcome = RemoveServer.execute(&mut db, &invoke("remove", &[("id", "42")]));
    assert_eq!(db.get(42), None);
    assert_eq!(outcome.change, Change::Removed(42));
    assert_eq!(outcome.embed.title, Some("Removed Server".to_string()));
    assert_eq!(outcome.embed.color, Color::INFO);
    assert_eq!(
        outcome.embed.author,
        Some(Author { name: "Gone".to_string(), link: Some("https://discord.gg/gone".to_string()), icon: None })
    );
}

#[test]
fn remove_reports_what_it_cannot_do() {
    let mut db = Database::open(&[]);
    db.insert(&entry(1, "One", None, None));
    assert_eq!(RemoveServer.execute(&mut db, &invoke("remove", &[("id", "99")])), refusal("Not Found Guild"));
    assert_eq!(RemoveServer.execute(&mut db, &invoke("remove", &[("id", "abc")])), refusal("Invalid Server ID"));
    assert_eq!(RemoveServer.execute(&mut db, &invoke("remove", &[])), refusal("No Guild ID"));
    assert_eq!(RemoveServer.execute(&mut db, &invoke("remove", &[("name", "One")])), refusal("No Guild ID"));
    assert_eq!(RemoveServer::request(&invoke("remove", &[("id", "3"), ("id", "4")]).options), Ok(4));
    assert_eq!(db.export(), vec![entry(1, "One", None, None)]);
}

#[test]
fn search_by_id_not_found() {
    let mut db = Database::open(&[]);
    let outcome = SearchServer.execute(&mut db, &invoke("search", &[("id", "99")]));
    assert_eq!(outcome, Outcome { embed: Embed::notice(Color::WARN, "No Servers Found"), change: Change::Nothing });
}

#[test]
fn search_by_id_shows_the_entry() {
    let mut db = Database::open(&[]);
    db.insert(&entry(99, "Found", None, Some("https://cdn.example/f.png")));
    let outcome = SearchServer.execute(&mut db, &invoke("search", &[("id", "99")]));
    assert_eq!(outcome.change, Change::Nothing);
    assert_eq!(outcome.embed.title, None);
    assert_eq!(
        outcome.embed.author,
        Some(Author { name: "Found".to_string(), link: None, icon: Some("https://cdn.example/f.png".to_string()) })
    );
}

#[test]
fn search_by_name_lists_the_matches() {
    let mut db = Database::open(&[]);
    db.insert(&entry(1, "Rust Community", Some("https://discord.gg/rust"), None));
    db.insert(&entry(2, "Gophers", None, None));
    db.insert(&entry(3, "Trusty", None, None));
    let outcome = SearchServer.execute(&mut db, &invoke("search", &[("name", "RUST")]));
    assert_eq!(outcome.embed.title, Some("Servers".to_string()));
    let labels: Vec<String> = outcome.embed.fields.into_iter().map(|f| f.label).collect();
    assert_eq!(labels, vec!["[Rust Community](https://discord.gg/rust)".to_string(), "Trusty".to_string()]);
    let one = SearchServer.execute(&mut db, &invoke("search", &[("name", "goph")]));
    assert_eq!(one.embed.author.unwrap().name, "Gophers");
    let none = SearchServer.execute(&mut db, &invoke("search", &[("name", "zig")]));
    assert_eq!(none.embed, Embed::notice(Color::WARN, "No Servers Found"));
}

#[test]
fn search_reads_its_options() {
    assert_eq!(SearchServer::request(&invoke("search", &[("id", "7")]).options), SearchRequest::ById(7));
    assert_eq!(SearchServer::request(&invoke("search", &[("name", "x")]).options), SearchRequest::ByName("x".to_string()));
    assert_eq!(SearchServer::request(&invoke("search", &[("id", "x"), ("name", "x")]).options), SearchRequest::Refused("Invalid Server ID"));
    assert_eq!(SearchServer::request(&invoke("search", &[]).options), SearchRequest::Unanswerable);
    assert_eq!(SearchServer::request(&invoke("search", &[("id", "7"), ("name", "x")]).options), SearchRequest::Unanswerable);
    assert!(SearchServer.handles(&invoke("search", &[("id", "7")])));
    assert!(SearchServer.handles(&invoke("search", &[("id", "bad")])));
    assert!(!SearchServer.handles(&invoke("search", &[])));
    assert!(AddServer.handles(&invoke("add", &[])));
}

#[test]
fn show_collects_the_linked_guilds() {
    let mut db = Database::open(&[]);
    db.insert(&entry(1, "One", Some("https://discord.gg/one"), None));
    db.insert(&entry(2, "Two", None, None));
    let outcome = ShowServersMenu.execute(
        &mut db,
        &select(&[
            "see https://discord.com/channels/2/5 and https://discord.com/channels/404",
            "nothing here",
            "https://discordapp.com/channels/1 https://discord.com/channels/2",
        ]),
    );
    assert_eq!(outcome.change, Change::Nothing);
    let labels: Vec<String> = outcome.embed.fields.into_iter().map(|f| f.label).collect();
    assert_eq!(labels, vec!["Two".to_string(), "[One](https://discord.gg/one)".to_string(), "Two".to_string()]);
    let none = ShowServersMenu.execute(&mut db, &select(&["https://example.com/channels/1"]));
    assert_eq!(none.embed, Embed::notice(Color::WARN, "No Servers Found"));
    let empty = ShowServersMenu.execute(&mut db, &select(&[]));
    assert_eq!(empty.embed, Embed::notice(Color::WARN, "No Servers Found"));
    let one = ShowServersMenu.execute(&mut db, &select(&["https://discord.com/channels/1"]));
    assert_eq!(one.embed.author.unwrap().name, "One");
}

#[test]
fn commands_declare_themselves() {
    assert_eq!(AddServer.name(), "add");
    assert_eq!(RemoveServer.name(), "remove");
    assert_eq!(SearchServer.name(), "search");
    assert_eq!(ShowServersMenu.name(), "show servers");
    let text = |name: &str, description: &str, required: bool| OptionDeclaration {
        name: name.to_string(),
        description: description.to_string(),
        required,
    };
    assert_eq!(
        AddServer.create_command(CommandDeclaration::new("add")),
        CommandDeclaration {
            name: "add".to_string(),
            kind: CommandKind::ChatInput,
            description: Some("Add a server".to_string()),
            options: vec![
                text("id", "Server Id", true),
                text("name", "Guild Name", true),
                text("icon", "Icon Url", false),
                text("invite", "Invite Url", false),
            ],
        }
    );
    assert_eq!(
        RemoveServer.create_command(CommandDeclaration::new("remove")).options,
        vec![text("id", "Server Id", true)]
    );
    assert_eq!(
        SearchServer.create_command(CommandDeclaration::new("search")).options,
        vec![text("id", "Server Id", false), text("name", "Server Name", false)]
    );
    assert_eq!(
        ShowServersMenu.create_command(CommandDeclaration::new("show servers")),
        CommandDeclaration { name: "show servers".to_string(), kind: CommandKind::Message, description: None, options: vec![] }
    );
}

#[test]
fn handler_dispatches_by_name() {
    let mut handler = GuildlyHandler::new(Database::open(&[]));
    assert_eq!(handler.dispatch(&invoke("add", &[("id", "1"), ("name", "n")])), Dispatch::NotFound);
    handler.register(Command::Add(AddServer));
    handler.register(Command::Search(SearchServer));
    handler.register(Command::ShowServers(ShowServersMenu));
    handler.register(Command::Add(AddServer));
    assert_eq!(handler.declarations().len(), 3);
    let names: Vec<String> = handler.declarations().into_iter().map(|d| d.name).collect();
    assert_eq!(names, vec!["add".to_string(), "search".to_string(), "show servers".to_string()]);
    match handler.dispatch(&invoke("add", &[("id", "1"), ("name", "n")])) {
        Dispatch::Answered(outcome) => assert_eq!(outcome.change, Change::Stored(entry(1, "n", None, None))),
        other => panic!("{:?}", other),
    }
    assert_eq!(handler.database().get(1), Some(entry(1, "n", None, None)));
    assert_eq!(handler.dispatch(&invoke("remove", &[("id", "1")])), Dispatch::NotFound);
    assert_eq!(handler.dispatch(&invoke("search", &[])), Dispatch::Unanswerable);
    assert_eq!(handler.dispatch(&invoke("ADD", &[])), Dispatch::NotFound);
    match handler.dispatch(&select(&["https://discord.com/channels/1"])) {
        Dispatch::Answered(outcome) => assert_eq!(outcome.embed.author.unwrap().name, "n"),
        other => panic!("{:?}", other),
    }
    assert_eq!(handler.guild_link_finder("https://discord.com/channels/77"), vec![77]);
    handler.refresh(&[Row { guild_id: 9, name: "nine".to_string(), invite_url: None, icon_url: None }]);
    assert_eq!(handler.database().export(), vec![entry(9, "nine", None, None)]);
    assert_eq!(handler.declarations().len(), 3);
}

#[test]
fn the_enum_runs_the_command_it_holds() {
    let mut db = Database::open(&[]);
    let command = Command::Remove(RemoveServer);
    assert_eq!(command.name(), "remove");
    assert_eq!(command.execute(&mut db, &invoke("remove", &[("id", "1")])), refusal("Not Found Guild"));
    assert!(!Command::Search(SearchServer).handles(&invoke("search", &[])));
    assert_eq!(
        Command::ShowServers(ShowServersMenu).create_command(CommandDeclaration::new("x")).kind,
        CommandKind::Message
    );
}
