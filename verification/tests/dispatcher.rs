use fabrica::delivery::{Effect, Subscriber};
use fabrica::dispatcher::{
    debug_answer, dialects_answer, mode_answer, Answer, DispatchError, Dispatcher, InboundMessage,
    Query, Step, TranslationJob,
};
use fabrica::mode::ChannelMode;
use fabrica::translator::{BackendError, Translation};

const AUTHOR: &str = "100";

fn message(text: &str) -> InboundMessage {
    InboundMessage {
        id: "5000".to_string(),
        timestamp: 1_700_000_000,
        guild: Some("1".to_string()),
        channel: "10".to_string(),
        author: AUTHOR.to_string(),
        author_name: "ana".to_string(),
        author_is_bot: false,
        text: text.to_string(),
    }
}

fn served() -> Vec<String> {
    vec!["1".to_string()]
}

fn show(effect: &Effect) -> String {
    match effect {
        Effect::PublicReply { content } => format!("reply:{}", content),
        Effect::PrivateMessage { user, content } => format!("dm:{}:{}", user, content),
        Effect::FailureMarker => "marker".to_string(),
    }
}

fn effects(step: Step) -> Vec<String> {
    match step {
        Step::Finish(effects) => effects.iter().map(show).collect(),
        other => panic!("the dispatcher should have finished, not {:?}", other),
    }
}

fn jobs(step: Step) -> Vec<TranslationJob> {
    match step {
        Step::Ask(Query::Translations { jobs }) => jobs,
        other => panic!("translations should have been asked for, not {:?}", other),
    }
}

fn show_job(job: &TranslationJob) -> String {
    format!("{}|{}|{}|{:?}", job.text, job.from, job.to, job.dialect)
}

fn text(t: &str) -> Result<Translation, BackendError> {
    Ok(Translation::Text(t.to_string()))
}

fn sub(user: &str, language: &str) -> Subscriber {
    Subscriber { user: user.to_string(), language: language.to_string() }
}

/// Takes a message up to the point at which its language is settled as `code`.
fn routed(text: &str, mode: ChannelMode, code: &str) -> (Dispatcher, Step) {
    let (d, step) = Dispatcher::start(message(text), &served());
    assert!(matches!(step, Step::Ask(Query::ChannelMode)));
    let (d, step) = d.step(Answer::Mode(mode));
    match step {
        Step::Ask(Query::Detection { .. }) => d.step(Answer::Detected(Ok(code.to_string()))),
        other => (d, other),
    }
}

#[test]
fn french_message_in_mode_on_gets_one_public_reply() {
    let (d, step) = Dispatcher::start(message("Bonjour tout le monde"), &served());
    assert!(matches!(step, Step::Ask(Query::ChannelMode)));
    let (d, step) = d.step(Answer::Mode(ChannelMode::On));
    let (d, step) = match step {
        Step::Ask(Query::Detection { text }) => {
            assert_eq!(text, "Bonjour tout le monde");
            d.step(Answer::Detected(Ok("fr".to_string())))
        }
        other => (d, other),
    };
    let asked = jobs(step);
    assert_eq!(asked.len(), 1);
    assert_eq!(show_job(&asked[0]), "Bonjour tout le monde|fr|en|None");
    let (d, step) = d.step(Answer::Translations(vec![text("Hello everyone")]));
    assert_eq!(effects(step), vec!["reply:🌐 **Translation:** Hello everyone"]);
    assert!(d.is_finished());
}

#[test]
fn failed_translation_marks_the_message() {
    let (d, step) = routed("Bonjour tout le monde", ChannelMode::On, "fr");
    assert_eq!(jobs(step).len(), 1);
    let (d, step) = d.step(Answer::Translations(vec![Err(BackendError::Transport)]));
    assert_eq!(effects(step), vec!["marker"]);
    assert!(d.is_finished());
}

#[test]
fn failure_is_marked_in_every_active_mode() {
    for mode in [ChannelMode::Silent, ChannelMode::On, ChannelMode::Transparent] {
        let (d, _) = routed("Guten Morgen zusammen", mode, "de");
        let (_, step) = d.step(Answer::Translations(vec![Err(BackendError::Malformed)]));
        assert_eq!(effects(step), vec!["marker"]);
    }
}

#[test]
fn translation_not_needed_delivers_nothing() {
    let (d, _) = routed("Bonjour tout le monde", ChannelMode::On, "fr");
    let (_, step) = d.step(Answer::Translations(vec![Ok(Translation::NotNeeded)]));
    assert!(effects(step).is_empty());
}

#[test]
fn channel_that_is_off_ends_at_once() {
    let (d, step) = Dispatcher::start(message("Bonjour tout le monde"), &served());
    assert!(matches!(step, Step::Ask(Query::ChannelMode)));
    let (d, step) = d.step(Answer::Mode(ChannelMode::Off));
    assert!(effects(step).is_empty());
    assert!(d.is_finished());
    let (_, step) = d.step(Answer::Languages(vec![]));
    assert!(matches!(step, Step::Abort(DispatchError::UnexpectedAnswer)));
}

#[test]
fn blank_message_is_not_classified() {
    for text in ["", "   ", "\n\t "] {
        for mode in [ChannelMode::Silent, ChannelMode::On, ChannelMode::Transparent] {
            let (d, _) = Dispatcher::start(message(text), &served());
            let (d, step) = d.step(Answer::Mode(mode));
            assert!(effects(step).is_empty());
            assert!(d.is_finished());
        }
    }
}

#[test]
fn messages_that_are_not_served_end_at_once() {
    let mut from_bot = message("hello");
    from_bot.author_is_bot = true;
    let (d, step) = Dispatcher::start(from_bot, &served());
    assert!(effects(step).is_empty());
    assert!(d.is_finished());

    let mut direct = message("hello");
    direct.guild = None;
    let (_, step) = Dispatcher::start(direct, &served());
    assert!(effects(step).is_empty());

    let mut elsewhere = message("hello");
    elsewhere.guild = Some("2".to_string());
    let (_, step) = Dispatcher::start(elsewhere, &served());
    assert!(effects(step).is_empty());

    let (_, step) = Dispatcher::start(message("hello"), &vec![]);
    assert!(effects(step).is_empty());
}

#[test]
fn unreadable_mode_aborts() {
    let (d, _) = Dispatcher::start(message("hello there my friends"), &served());
    let (d, step) = d.step(Answer::Unavailable);
    assert!(matches!(step, Step::Abort(DispatchError::RegistryUnavailable)));
    assert!(d.is_finished());
}

#[test]
fn answer_that_does_not_fit_aborts() {
    let (d, _) = Dispatcher::start(message("hello there my friends"), &served());
    let (_, step) = d.step(Answer::DebugFlag(true));
    assert!(matches!(step, Step::Abort(DispatchError::UnexpectedAnswer)));

    let (d, _) = routed("Bonjour tout le monde", ChannelMode::On, "fr");
    let (_, step) = d.step(Answer::Translations(vec![]));
    assert!(matches!(step, Step::Abort(DispatchError::UnexpectedAnswer)));

    let (d, _) = routed("Bonjour tout le monde", ChannelMode::On, "fr");
    let (_, step) = d.step(Answer::Translations(vec![text("a"), text("b")]));
    assert!(matches!(step, Step::Abort(DispatchError::UnexpectedAnswer)));
}

#[test]
fn failed_detection_counts_as_english() {
    let (d, _) = Dispatcher::start(message("zzz qqq"), &served());
    let (d, step) = d.step(Answer::Mode(ChannelMode::Transparent));
    if let Step::Ask(Query::Detection { .. }) = step {
        let (_, step) = d.step(Answer::Detected(Err(BackendError::Transport)));
        assert!(matches!(step, Step::Ask(Query::SubscribedLanguages)));
    }
}

#[test]
fn transparent_mode_posts_all_translations_in_one_reply() {
    let (d, step) = routed("hello everyone, how are you today?", ChannelMode::Transparent, "en");
    assert!(matches!(step, Step::Ask(Query::SubscribedLanguages)));
    let languages = vec!["fr".to_string(), "en".to_string(), "es".to_string()];
    let (d, step) = d.step(Answer::Languages(languages));
    let asked = jobs(step);
    assert_eq!(
        asked.iter().map(show_job).collect::<Vec<_>>(),
        vec![
            "hello everyone, how are you today?|en|fr|None",
            "hello everyone, how are you today?|en|es|None"
        ]
    );
    let (d, step) = d.step(Answer::Translations(vec![
        text("bonjour à tous, comment allez-vous ?"),
        text("hola a todos, ¿cómo están hoy?"),
    ]));
    assert_eq!(
        effects(step),
        vec!["reply:🌐 **French:** bonjour à tous, comment allez-vous ?\n**Spanish:** hola a todos, ¿cómo están hoy?"]
    );
    assert!(d.is_finished());
}

#[test]
fn transparent_mode_leaves_failed_languages_out() {
    let (d, _) = routed("hello everyone, how are you today?", ChannelMode::Transparent, "en");
    let (d, _) = d.step(Answer::Languages(vec!["fr".to_string(), "es".to_string(), "de".to_string()]));
    let (_, step) = d.step(Answer::Translations(vec![
        Err(BackendError::Status { status: 500, body: "x".to_string() }),
        text("hola a todos"),
        Ok(Translation::NotNeeded),
    ]));
    assert_eq!(effects(step), vec!["reply:🌐 **Spanish:** hola a todos"]);
}

#[test]
fn transparent_mode_without_translations_posts_nothing() {
    let (d, _) = routed("hello everyone, how are you today?", ChannelMode::Transparent, "en");
    let (d, _) = d.step(Answer::Languages(vec!["fr".to_string(), "es".to_string()]));
    let (_, step) =
        d.step(Answer::Translations(vec![Err(BackendError::Empty), Err(BackendError::Transport)]));
    assert!(effects(step).is_empty());

    let (d, _) = routed("hello everyone, how are you today?", ChannelMode::Transparent, "en");
    let (d, step) = d.step(Answer::Languages(vec!["en".to_string()]));
    assert!(effects(step).is_empty());
    assert!(d.is_finished());
}

#[test]
fn echoed_translation_is_not_delivered() {
    let source = "Hello everyone, how are you today?";
    for target in ["hi", "fr", "es", "de", "fil", "pt", "ko"] {
        let (d, _) = routed(source, ChannelMode::Transparent, "en");
        let (d, _) = d.step(Answer::Languages(vec![target.to_string()]));
        let (_, step) =
            d.step(Answer::Translations(vec![text("hello everyone, HOW are you today?")]));
        assert!(effects(step).is_empty());

        let (d, _) = routed(source, ChannelMode::Silent, "en");
        let (d, _) = d.step(Answer::Subscriptions(vec![sub("200", target)]));
        let (d, _) = d.step(Answer::Dialects(vec![None]));
        let (d, step) =
            d.step(Answer::Translations(vec![text("HELLO EVERYONE, HOW ARE YOU TODAY?")]));
        assert!(effects(step).is_empty());
        assert!(d.is_finished());
    }
    let (d, _) = routed("Bonjour tout le monde", ChannelMode::On, "fr");
    let (_, step) = d.step(Answer::Translations(vec![text("bonjour tout le monde")]));
    assert!(effects(step).is_empty());
    let (d, _) = routed("Bonjour tout le monde mes amis", ChannelMode::On, "fr");
    // six of seven tokens agree: still too close to the source
    let (_, step) = d.step(Answer::Translations(vec![text("bonjour tout le monde mes amis !")]));
    assert!(effects(step).is_empty());
    let (d, _) = routed("Bonjour tout le monde mes amis", ChannelMode::On, "fr");
    let (_, step) = d.step(Answer::Translations(vec![text("bonjour le monde")]));
    assert_eq!(effects(step), vec!["reply:🌐 **Translation:** bonjour le monde"]);
}

#[test]
fn command_messages_are_not_translated() {
    let (d, step) = routed("/fabrica who is around today", ChannelMode::On, "en");
    assert!(effects(step).is_empty());
    assert!(d.is_finished());
}

#[test]
fn silent_mode_sends_private_messages_by_language_and_dialect() {
    let (d, step) = routed("hello everyone, how are you today?", ChannelMode::Silent, "en");
    assert!(matches!(step, Step::Ask(Query::NonEnglishSubscriptions)));
    let subscriptions =
        vec![sub("200", "fr"), sub("201", "es"), sub("202", "fr"), sub("203", "es"), sub("204", "en")];
    let (d, step) = d.step(Answer::Subscriptions(subscriptions));
    match step {
        Step::Ask(Query::Dialects { subscribers }) => {
            let asked: Vec<String> =
                subscribers.iter().map(|s| format!("{}:{}", s.user, s.language)).collect();
            assert_eq!(asked, vec!["200:fr", "201:es", "202:fr", "203:es"]);
        }
        other => panic!("dialects should have been asked for, not {:?}", other),
    }
    let dialects = vec![None, Some("mexican".to_string()), None, None];
    let (d, step) = d.step(Answer::Dialects(dialects));
    let asked = jobs(step);
    assert_eq!(
        asked.iter().map(show_job).collect::<Vec<_>>(),
        vec![
            "hello everyone, how are you today?|en|fr|None",
            "hello everyone, how are you today?|en|es|Some(\"mexican\")",
            "hello everyone, how are you today?|en|es|None"
        ]
    );
    let (d, step) = d.step(Answer::Translations(vec![
        text("bonjour"),
        Err(BackendError::Transport),
        text("hola"),
    ]));
    assert!(matches!(step, Step::Ask(Query::ChannelName)));
    let (d, step) = d.step(Answer::ChannelName(Some("general".to_string())));
    assert_eq!(
        effects(step),
        vec![
            "dm:200:[#general] **ana** said:\nbonjour",
            "dm:202:[#general] **ana** said:\nbonjour",
            "dm:203:[#general] **ana** said:\nhola"
        ]
    );
    assert!(d.is_finished());
}

#[test]
fn mode_on_sends_english_messages_privately() {
    let (d, step) = routed("hello everyone, how are you today?", ChannelMode::On, "en");
    assert!(matches!(step, Step::Ask(Query::NonEnglishSubscriptions)));
    let (d, step) = d.step(Answer::Subscriptions(vec![]));
    assert!(effects(step).is_empty());
    assert!(d.is_finished());
}

#[test]
fn author_without_debug_gets_no_private_message() {
    let (d, _) = routed("hello everyone, how are you today?", ChannelMode::Silent, "en");
    let (d, _) = d.step(Answer::Subscriptions(vec![sub(AUTHOR, "fr"), sub("200", "fr")]));
    let (d, _) = d.step(Answer::Dialects(vec![None, None]));
    let (d, _) = d.step(Answer::Translations(vec![text("bonjour")]));
    let (d, step) = d.step(Answer::ChannelName(None));
    match step {
        Step::Ask(Query::DebugFlag { user }) => assert_eq!(user, AUTHOR),
        other => panic!("the debug flag should have been asked for, not {:?}", other),
    }
    let (_, step) = d.step(Answer::DebugFlag(false));
    assert_eq!(effects(step), vec!["dm:200:[#channel] **ana** said:\nbonjour"]);
}

#[test]
fn author_with_debug_gets_the_private_message() {
    let (d, _) = routed("hello everyone, how are you today?", ChannelMode::Silent, "en");
    let (d, _) = d.step(Answer::Subscriptions(vec![sub(AUTHOR, "fr"), sub("200", "fr")]));
    let (d, _) = d.step(Answer::Dialects(vec![None, None]));
    let (d, _) = d.step(Answer::Translations(vec![text("bonjour")]));
    let (d, _) = d.step(Answer::ChannelName(Some("dev".to_string())));
    let (_, step) = d.step(Answer::DebugFlag(true));
    assert_eq!(
        effects(step),
        vec!["dm:100:[#dev] **ana** said:\nbonjour", "dm:200:[#dev] **ana** said:\nbonjour"]
    );
}

#[test]
fn unreadable_debug_flag_aborts() {
    for mode in [ChannelMode::Silent, ChannelMode::On] {
        let (d, _) = routed("hello everyone, how are you today?", mode, "en");
        let (d, _) = d.step(Answer::Subscriptions(vec![sub(AUTHOR, "fr"), sub("200", "fr")]));
        let (d, _) = d.step(Answer::Dialects(vec![None, None]));
        let (d, _) = d.step(Answer::Translations(vec![text("bonjour")]));
        let (d, step) = d.step(Answer::ChannelName(Some("dev".to_string())));
        assert!(matches!(step, Step::Ask(Query::DebugFlag { .. })));
        let (d, step) = d.step(Answer::Unavailable);
        assert!(matches!(step, Step::Abort(DispatchError::RegistryUnavailable)));
        assert!(d.is_finished());
    }
    let (d, _) = routed("Bonjour tout le monde", ChannelMode::Silent, "fr");
    let (d, _) = d.step(Answer::Translations(vec![text("Hello everyone")]));
    let (d, _) = d.step(Answer::Subscribers(vec![AUTHOR.to_string()]));
    let (d, _) = d.step(Answer::ChannelName(None));
    let (_, step) = d.step(Answer::Unavailable);
    assert!(matches!(step, Step::Abort(DispatchError::RegistryUnavailable)));
}

#[test]
fn unreadable_dialect_aborts() {
    let (d, _) = routed("hello everyone, how are you today?", ChannelMode::Silent, "en");
    let (d, _) = d.step(Answer::Subscriptions(vec![sub("200", "fr"), sub("201", "es")]));
    let reads: Vec<Result<Option<String>, ()>> = vec![Ok(Some("quebec".to_string())), Err(())];
    let (d, step) = d.step(dialects_answer(&reads));
    assert!(matches!(step, Step::Abort(DispatchError::RegistryUnavailable)));
    assert!(d.is_finished());
}

#[test]
fn silent_mode_sends_english_translation_to_english_subscribers() {
    let (d, _) = routed("Bonjour tout le monde", ChannelMode::Silent, "fr");
    let (d, step) = d.step(Answer::Translations(vec![text("Hello everyone")]));
    match step {
        Step::Ask(Query::Subscribers { language }) => assert_eq!(language, "en"),
        other => panic!("the subscribers should have been asked for, not {:?}", other),
    }
    let (d, step) = d.step(Answer::Subscribers(vec!["300".to_string(), AUTHOR.to_string()]));
    assert!(matches!(step, Step::Ask(Query::ChannelName)));
    let (d, step) = d.step(Answer::ChannelName(Some("general".to_string())));
    assert!(matches!(step, Step::Ask(Query::DebugFlag { .. })));
    let (_, step) = d.step(Answer::DebugFlag(false));
    assert_eq!(effects(step), vec!["dm:300:[#general] **ana** said:\nHello everyone"]);
}

#[test]
fn silent_mode_without_english_subscribers_sends_nothing() {
    let (d, _) = routed("Bonjour tout le monde", ChannelMode::Silent, "fr");
    let (d, _) = d.step(Answer::Translations(vec![text("Hello everyone")]));
    let (d, step) = d.step(Answer::Subscribers(vec![]));
    assert!(effects(step).is_empty());
    assert!(d.is_finished());
}

#[test]
fn unreadable_subscriptions_abort() {
    let (d, _) = routed("hello everyone, how are you today?", ChannelMode::Silent, "en");
    let (_, step) = d.step(Answer::Unavailable);
    assert!(matches!(step, Step::Abort(DispatchError::RegistryUnavailable)));
    let (d, _) = routed("hello everyone, how are you today?", ChannelMode::Transparent, "en");
    let (_, step) = d.step(Answer::Unavailable);
    assert!(matches!(step, Step::Abort(DispatchError::RegistryUnavailable)));
    let (d, _) = routed("Bonjour tout le monde", ChannelMode::Silent, "fr");
    let (d, _) = d.step(Answer::Translations(vec![text("Hello everyone")]));
    let (_, step) = d.step(Answer::Unavailable);
    assert!(matches!(step, Step::Abort(DispatchError::RegistryUnavailable)));
}

#[test]
fn three_letter_english_code_counts_as_english() {
    let (_, step) = routed("zzz qqq", ChannelMode::Transparent, "eng");
    match step {
        Step::Ask(Query::SubscribedLanguages) => {}
        Step::Ask(Query::Translations { jobs }) => {
            // the detector was sure of another language: nothing to check here
            assert_eq!(jobs.len(), 1);
        }
        other => panic!("unexpected step {:?}", other),
    }
}

#[test]
fn marked_source_text_is_delivered_as_it_is() {
    let (d, _) = routed("Bonjour tout le monde", ChannelMode::On, "fr");
    let unavailable = Ok(Translation::Unavailable(
        "[Translation unavailable] Bonjour tout le monde".to_string(),
    ));
    let (_, step) = d.step(Answer::Translations(vec![unavailable]));
    assert_eq!(
        effects(step),
        vec!["reply:🌐 **Translation:** [Translation unavailable] Bonjour tout le monde"]
    );
}

#[test]
fn duplicate_languages_are_translated_once() {
    let (d, _) = routed("hello everyone, how are you today?", ChannelMode::Transparent, "en");
    let languages = ["fr", "es", "fr", "en", "es"].iter().map(|l| l.to_string()).collect();
    let (_, step) = d.step(Answer::Languages(languages));
    let targets: Vec<String> = jobs(step).into_iter().map(|job| job.to).collect();
    assert_eq!(targets, vec!["fr", "es"]);
}

#[test]
fn answers_from_what_the_store_holds() {
    let failed: Result<Option<String>, ()> = Err(());
    assert!(matches!(mode_answer(failed), Answer::Unavailable));
    let unset: Result<Option<String>, ()> = Ok(None);
    assert!(matches!(mode_answer(unset), Answer::Mode(ChannelMode::Off)));
    let set: Result<Option<String>, ()> = Ok(Some("transparent".to_string()));
    assert!(matches!(mode_answer(set), Answer::Mode(ChannelMode::Transparent)));
    let odd: Result<Option<String>, ()> = Ok(Some("loud".to_string()));
    assert!(matches!(mode_answer(odd), Answer::Mode(ChannelMode::Off)));

    let failed: Result<Option<i64>, ()> = Err(());
    assert!(matches!(debug_answer(failed), Answer::Unavailable));
    for (stored, expected) in [(None, false), (Some(0), false), (Some(1), true), (Some(2), false)] {
        let read: Result<Option<i64>, ()> = Ok(stored);
        match debug_answer(read) {
            Answer::DebugFlag(flag) => assert_eq!(flag, expected),
            other => panic!("unexpected answer {:?}", other),
        }
    }

    let reads: Vec<Result<Option<String>, ()>> = vec![];
    match dialects_answer(&reads) {
        Answer::Dialects(dialects) => assert!(dialects.is_empty()),
        other => panic!("unexpected answer {:?}", other),
    }
    let reads: Vec<Result<Option<String>, ()>> =
        vec![Ok(None), Ok(Some("mexican".to_string())), Ok(None)];
    match dialects_answer(&reads) {
        Answer::Dialects(dialects) => {
            assert_eq!(dialects, vec![None, Some("mexican".to_string()), None])
        }
        other => panic!("unexpected answer {:?}", other),
    }
    for failing in 0..3 {
        let reads: Vec<Result<Option<String>, ()>> =
            (0..3).map(|i| if i == failing { Err(()) } else { Ok(None) }).collect();
        assert!(matches!(dialects_answer(&reads), Answer::Unavailable));
    }
}
