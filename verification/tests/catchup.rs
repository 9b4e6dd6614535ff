use fabrica::catchup::{
    compose_header, compose_line, limit_for, pick_subscribed_target, plan_fetch, select_messages,
    Catchup, CatchupAnswer, CatchupQuery, CatchupRequest, CatchupStep, FetchedMessage,
};
use fabrica::translator::{BackendError, Translation};

const ENGLISH: &str = "This is a perfectly ordinary English sentence that the detector will certainly recognise as English.";
const SPANISH: &str = "Además de todo lo anteriormente dicho, también encontramos que los niños aprenden más rápido cuando están contentos.";

fn request(language: Option<&str>, count: Option<u32>) -> CatchupRequest {
    CatchupRequest {
        guild: Some("g".to_string()),
        bot: "999".to_string(),
        count,
        language: language.map(|l| l.to_string()),
    }
}

fn fetched(id: &str, author: &str, content: &str) -> FetchedMessage {
    FetchedMessage {
        id: id.to_string(),
        author: author.to_string(),
        author_name: format!("user{}", author),
        time: "12:00".to_string(),
        content: content.to_string(),
    }
}

fn said(step: CatchupStep) -> String {
    match step {
        CatchupStep::Say(text) => text,
        other => panic!("a reply was expected, not {:?}", other),
    }
}

fn show(query: &CatchupQuery) -> String {
    match query {
        CatchupQuery::Messages { after, limit } => format!("messages after {:?} limit {}", after, limit),
        other => format!("{:?}", other),
    }
}

/// Takes a request up to the point at which messages are asked for.
fn up_to_messages(req: CatchupRequest, dialect: Option<&str>, cursor: Option<&str>) -> (Catchup, String) {
    let (c, step) = Catchup::start(req);
    assert!(matches!(step, CatchupStep::Ask(CatchupQuery::Dialect { .. })));
    let (c, step) = c.step(CatchupAnswer::Dialect(dialect.map(|d| d.to_string())));
    assert!(matches!(step, CatchupStep::Ask(CatchupQuery::Defer)));
    let (c, step) = c.step(CatchupAnswer::Deferred);
    assert!(matches!(step, CatchupStep::Ask(CatchupQuery::Cursor)));
    let (c, step) = c.step(CatchupAnswer::Cursor(cursor.map(|d| d.to_string())));
    match step {
        CatchupStep::Ask(query) => (c, show(&query)),
        other => panic!("messages should have been asked for, not {:?}", other),
    }
}

#[test]
fn catching_up_is_for_servers() {
    let mut req = request(None, None);
    req.guild = None;
    let (_, step) = Catchup::start(req);
    assert_eq!(said(step), "⚠️ This command is only available in servers.");
}

#[test]
fn named_language_comes_first() {
    let (_, step) = Catchup::start(request(Some("Spanish"), None));
    match step {
        CatchupStep::Ask(CatchupQuery::Dialect { language }) => assert_eq!(language, "es"),
        other => panic!("unexpected step {:?}", other),
    }
}

#[test]
fn default_language_comes_before_subscriptions() {
    let (c, step) = Catchup::start(request(None, None));
    assert!(matches!(step, CatchupStep::Ask(CatchupQuery::DefaultLanguage)));
    let (_, step) = c.step(CatchupAnswer::DefaultLanguage(Some("de".to_string())));
    match step {
        CatchupStep::Ask(CatchupQuery::Dialect { language }) => assert_eq!(language, "de"),
        other => panic!("unexpected step {:?}", other),
    }
}

#[test]
fn subscriptions_come_last() {
    for answer in [CatchupAnswer::DefaultLanguage(None), CatchupAnswer::Failed] {
        let (c, _) = Catchup::start(request(None, None));
        let (c, step) = c.step(answer);
        assert!(matches!(step, CatchupStep::Ask(CatchupQuery::Subscriptions)));
        let (_, step) =
            c.step(CatchupAnswer::Subscriptions(vec!["en".to_string(), "fr".to_string(), "es".to_string()]));
        match step {
            CatchupStep::Ask(CatchupQuery::Dialect { language }) => assert_eq!(language, "fr"),
            other => panic!("unexpected step {:?}", other),
        }
    }
    let (c, _) = Catchup::start(request(None, None));
    let (c, _) = c.step(CatchupAnswer::DefaultLanguage(None));
    let (_, step) = c.step(CatchupAnswer::Subscriptions(vec![]));
    assert_eq!(
        said(step),
        "⚠️ Set a default language with `/fabrica translate default <language>`, or specify one: `/fabrica translate last <count> <language>`"
    );
    let (c, _) = Catchup::start(request(None, None));
    let (c, _) = c.step(CatchupAnswer::DefaultLanguage(None));
    let (_, step) = c.step(CatchupAnswer::Failed);
    assert!(matches!(step, CatchupStep::Abort));
}

#[test]
fn subscribed_target() {
    let list = |items: &[&str]| items.iter().map(|s| s.to_string()).collect::<Vec<String>>();
    assert_eq!(pick_subscribed_target(&list(&[])), None);
    assert_eq!(pick_subscribed_target(&list(&["en"])), Some("en".to_string()));
    assert_eq!(pick_subscribed_target(&list(&["en", "en"])), Some("en".to_string()));
    assert_eq!(pick_subscribed_target(&list(&["en", "ko", "fr"])), Some("ko".to_string()));
    assert_eq!(pick_subscribed_target(&list(&["hi", "en"])), Some("hi".to_string()));
}

#[test]
fn what_is_fetched() {
    assert_eq!(limit_for(None), 50);
    assert_eq!(limit_for(Some(0)), 0);
    assert_eq!(limit_for(Some(7)), 7);
    assert_eq!(limit_for(Some(100)), 100);
    assert_eq!(limit_for(Some(101)), 100);
    assert_eq!(limit_for(Some(u32::MAX)), 100);
    let plan = |count, cursor: Option<&str>| show(&plan_fetch(count, &cursor.map(|c| c.to_string())));
    assert_eq!(plan(None, None), "messages after None limit 20");
    assert_eq!(plan(Some(5), None), "messages after None limit 5");
    assert_eq!(plan(None, Some("1234")), "messages after Some(1234) limit 50");
    assert_eq!(plan(Some(200), Some("1234")), "messages after Some(1234) limit 100");
    assert_eq!(plan(None, Some("junk")), "messages after None limit 50");
    assert_eq!(plan(Some(3), Some("0")), "messages after None limit 3");
    let (_, asked) = up_to_messages(request(Some("fr"), Some(10)), None, Some("77"));
    assert_eq!(asked, "messages after Some(77) limit 10");
}

#[test]
fn failures_on_the_way() {
    let (c, _) = Catchup::start(request(Some("fr"), None));
    let (c, step) = c.step(CatchupAnswer::Failed);
    assert!(matches!(step, CatchupStep::Ask(CatchupQuery::Defer)));
    let (_, step) = c.step(CatchupAnswer::Failed);
    assert!(matches!(step, CatchupStep::Abort));

    let (c, _) = Catchup::start(request(Some("fr"), None));
    let (c, _) = c.step(CatchupAnswer::Dialect(None));
    let (c, _) = c.step(CatchupAnswer::Deferred);
    let (_, step) = c.step(CatchupAnswer::Failed);
    assert!(matches!(step, CatchupStep::Abort));

    let (c, _) = up_to_messages(request(Some("fr"), None), None, None);
    let (_, step) = c.step(CatchupAnswer::Failed);
    assert_eq!(said(step), "📭 No new messages to show.");

    let (c, step) = Catchup::start(request(Some("fr"), None));
    assert!(matches!(step, CatchupStep::Ask(_)));
    let (_, step) = c.step(CatchupAnswer::Stored);
    assert!(matches!(step, CatchupStep::Abort));
}

#[test]
fn messages_are_selected_oldest_first() {
    let list = vec![
        fetched("5", "1", "newest"),
        fetched("4", "999", "🌐 **Translation:** hi"),
        fetched("3", "999", "not a translation"),
        fetched("2", "2", "   "),
        fetched("1", "1", "🌐 from a user"),
    ];
    let ids: Vec<String> = select_messages(&list, "999").iter().map(|m| m.id.clone()).collect();
    assert_eq!(ids, vec!["1", "3", "5"]);
    assert!(select_messages(&vec![], "999").is_empty());
}

#[test]
fn header_and_lines() {
    assert_eq!(compose_header(3, "fr", &None), "📜 **Last 3 messages translated to French:**\n\n");
    assert_eq!(
        compose_header(12, "fil", &Some("bisaya".to_string())),
        "📜 **Last 12 messages translated to Filipino (bisaya):**\n\n"
    );
    assert_eq!(compose_header(0, "xx", &None), "📜 **Last 0 messages translated to Unknown:**\n\n");
    assert_eq!(compose_line("09:15", "ana", "hola"), "[09:15] **ana**: hola\n");
}

#[test]
fn nothing_to_show() {
    let (c, _) = up_to_messages(request(Some("en"), None), None, None);
    let (_, step) = c.step(CatchupAnswer::Messages(vec![]));
    assert_eq!(said(step), "📭 No new messages to show.");

    let (c, _) = up_to_messages(request(Some("en"), None), None, None);
    let (_, step) = c.step(CatchupAnswer::Messages(vec![fetched("1", "999", "🌐 x"), fetched("2", "3", " ")]));
    assert_eq!(said(step), "📭 No messages to translate.");

    let (c, _) = up_to_messages(request(Some("en"), None), None, None);
    let (_, step) = c.step(CatchupAnswer::Messages(vec![fetched("1", "3", "k"), fetched("2", "3", " ! ")]));
    assert_eq!(said(step), "📭 No translatable messages found.");
}

#[test]
fn messages_in_the_target_language_are_shown_as_they_are() {
    let (c, _) = up_to_messages(request(Some("english"), None), None, None);
    let (c, step) = c.step(CatchupAnswer::Messages(vec![
        fetched("8", "2", &format!("  {}  ", ENGLISH)),
        fetched("7", "1", "x"),
    ]));
    match step {
        CatchupStep::Ask(CatchupQuery::StoreCursor { message_id }) => assert_eq!(message_id, "8"),
        other => panic!("the cursor should have been stored, not {:?}", other),
    }
    let (_, step) = c.step(CatchupAnswer::Stored);
    assert_eq!(
        said(step),
        format!("📜 **Last 2 messages translated to English:**\n\n[12:00] **user2**: {}\n", ENGLISH)
    );
}

#[test]
fn other_messages_are_translated() {
    let (c, _) = up_to_messages(request(Some("en"), None), Some("british"), Some("5"));
    let (c, step) = c.step(CatchupAnswer::Messages(vec![
        fetched("9", "2", ENGLISH),
        fetched("8", "3", SPANISH),
        fetched("7", "4", SPANISH),
    ]));
    match step {
        CatchupStep::Ask(CatchupQuery::Translation { job }) => {
            assert_eq!(job.text, SPANISH);
            assert_eq!(job.from, "es");
            assert_eq!(job.to, "en");
            assert_eq!(job.dialect.as_deref(), Some("british"));
        }
        other => panic!("a translation should have been asked for, not {:?}", other),
    }
    let (c, step) = c.step(CatchupAnswer::Translation(Ok(Translation::Text("first".to_string()))));
    assert!(matches!(step, CatchupStep::Ask(CatchupQuery::Translation { .. })));
    let (c, step) = c.step(CatchupAnswer::Translation(Err(BackendError::Transport)));
    match step {
        CatchupStep::Ask(CatchupQuery::StoreCursor { message_id }) => assert_eq!(message_id, "9"),
        other => panic!("the cursor should have been stored, not {:?}", other),
    }
    let (_, step) = c.step(CatchupAnswer::Stored);
    assert_eq!(
        said(step),
        format!(
            "📜 **Last 3 messages translated to English (british):**\n\n[12:00] **user4**: first\n[12:00] **user3**: {}\n[12:00] **user2**: {}\n",
            SPANISH, ENGLISH
        )
    );
}

#[test]
fn translation_not_needed_keeps_the_message() {
    let (c, _) = up_to_messages(request(Some("en"), None), None, None);
    let (c, _) = c.step(CatchupAnswer::Messages(vec![fetched("8", "3", SPANISH)]));
    let (c, _) = c.step(CatchupAnswer::Translation(Ok(Translation::NotNeeded)));
    let (_, step) = c.step(CatchupAnswer::Stored);
    assert_eq!(
        said(step),
        format!("📜 **Last 1 messages translated to English:**\n\n[12:00] **user3**: {}\n", SPANISH)
    );
}

#[test]
fn long_replies_are_cut_short() {
    let long = format!("{} {}", ENGLISH, "and it goes on ".repeat(30));
    let long = long.trim();
    let list: Vec<FetchedMessage> =
        (0..6).rev().map(|i| fetched(&i.to_string(), "1", long)).collect();
    let line = format!("[12:00] **user1**: {}\n", long);
    let lines_needed = {
        let mut n = 0;
        let mut size = "📜 **Last 6 messages translated to English:**\n\n".len();
        while size <= 1800 {
            size += line.len();
            n += 1;
        }
        n
    };
    assert!(lines_needed >= 1 && lines_needed < 6);
    let (c, _) = up_to_messages(request(Some("en"), None), None, None);
    let (c, step) = c.step(CatchupAnswer::Messages(list));
    // the oldest message has the identifier 0: the last line is that of
    // the message `lines_needed - 1`, and what follows it was not shown
    match step {
        CatchupStep::Ask(CatchupQuery::StoreCursor { message_id }) => {
            assert_eq!(message_id, (lines_needed - 1).to_string())
        }
        other => panic!("the cursor should have been stored, not {:?}", other),
    }
    let reply = said(c.step(CatchupAnswer::Stored).1);
    assert_eq!(
        reply,
        format!(
            "📜 **Last 6 messages translated to English:**\n\n{}\n_...truncated due to length_",
            line.repeat(lines_needed)
        )
    );
}

#[test]
fn cursor_is_the_last_message_in_the_reply() {
    let (c, _) = up_to_messages(request(Some("en"), None), None, None);
    let (c, step) = c.step(CatchupAnswer::Messages(vec![
        fetched("9", "2", "k"),
        fetched("8", "2", ENGLISH),
        fetched("7", "2", "!"),
    ]));
    match step {
        CatchupStep::Ask(CatchupQuery::StoreCursor { message_id }) => assert_eq!(message_id, "8"),
        other => panic!("the cursor should have been stored, not {:?}", other),
    }
    let (_, step) = c.step(CatchupAnswer::Stored);
    assert_eq!(
        said(step),
        format!("📜 **Last 3 messages translated to English:**\n\n[12:00] **user2**: {}\n", ENGLISH)
    );

    let (c, _) = up_to_messages(request(Some("en"), None), None, None);
    let (c, _) = c.step(CatchupAnswer::Messages(vec![
        fetched("9", "2", "k"),
        fetched("8", "3", SPANISH),
    ]));
    let (_, step) = c.step(CatchupAnswer::Translation(Ok(Translation::Text("hello".to_string()))));
    match step {
        CatchupStep::Ask(CatchupQuery::StoreCursor { message_id }) => assert_eq!(message_id, "8"),
        other => panic!("the cursor should have been stored, not {:?}", other),
    }
}

#[test]
fn failed_store_gives_no_reply() {
    let (c, _) = up_to_messages(request(Some("en"), None), None, None);
    let (c, _) = c.step(CatchupAnswer::Messages(vec![fetched("8", "2", ENGLISH)]));
    let (_, step) = c.step(CatchupAnswer::Failed);
    assert!(matches!(step, CatchupStep::Abort));
}
