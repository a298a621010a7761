use discord_bot::{
    bool_string, confirmation_given, secret_is_too_short, settings_from, status_string, Action,
    Command, Event, Phase, Recipient, Session, SettingsError, MIN_SECRET_BYTES,
};

fn s(text: &str) -> String {
    text.to_string()
}

#[test]
fn finished_session_stays_finished() {
    let (session, _) = Session::start(s("1"), Command::Status);
    let (session, _) = session.advance(Event::Opened(true));
    let (session, a) = session.advance(Event::Replied);
    assert!(matches!(a, Action::Finish));
    let (session, a) = session.advance(Event::Failed);
    assert!(matches!(a, Action::Finish));
    assert!(matches!(session.phase, Phase::Done));
}

#[test]
fn aborted_session_stays_aborted() {
    let (session, _) = Session::start(s("1"), Command::Close);
    let (session, a) = session.advance(Event::Stored(true));
    assert!(matches!(a, Action::Abort));
    let (session, a) = session.advance(Event::Replied);
    assert!(matches!(a, Action::Abort));
    assert!(matches!(session.phase, Phase::Aborted));
}

#[test]
fn unexpected_answer_ends_in_failure() {
    let (session, _) = Session::start(s("1"), Command::Create { secret: s("0123456789") });
    let (session, a) = session.advance(Event::Amount(3));
    assert!(matches!(a, Action::Abort));
    assert!(matches!(session.phase, Phase::Aborted));
}

#[test]
fn every_command_finishes_within_nineteen_answers() {
    let recipient = Recipient { id: s("2"), name: s("n"), created_at: s("t"), bot: false, system: false };
    let command = Command::Send { recipient, amount: s("1"), secret: s("0123456789") };
    let events = vec![
        Event::Replied,
        Event::Opened(true),
        Event::OpenedWallet(Some(s("me"))),
        Event::RecipientNotFound,
        Event::TransitionFound(None),
        Event::TransitionCreated { address: s("t") },
        Event::Amount(1),
        Event::TransactionSent { summary: s("ok"), hashes: s("[]") },
        Event::Replied,
    ];
    let (mut session, _) = Session::start(s("1"), command);
    let mut steps = 0;
    for e in events {
        let (next, a) = session.advance(e);
        session = next;
        steps += 1;
        if matches!(a, Action::Finish | Action::Abort) {
            break;
        }
    }
    assert!(matches!(session.phase, Phase::Done));
    assert!(steps <= 19);
}

#[test]
fn facts_are_learned_from_answers() {
    let (session, _) = Session::start(s("1"), Command::Status);
    assert_eq!(session.opened, None);
    assert_eq!(session.stored, None);
    let (session, _) = session.advance(Event::Opened(false));
    assert_eq!(session.opened, Some(false));
    assert_eq!(session.stored, None);
    let (session, _) = session.advance(Event::Stored(true));
    assert_eq!(session.stored, Some(true));
    assert_eq!(session.owner, "1");
}

#[test]
fn store_not_asked_when_wallet_opened() {
    let (session, _) = Session::start(s("1"), Command::Destroy);
    let (session, a) = session.advance(Event::Opened(true));
    assert!(matches!(a, Action::AskConfirmation));
    assert_eq!(session.stored, None);
}

#[test]
fn secret_rule_counts_bytes() {
    assert_eq!(MIN_SECRET_BYTES, 10);
    assert!(secret_is_too_short(&s("")));
    assert!(secret_is_too_short(&s("123456789")));
    assert!(!secret_is_too_short(&s("1234567890")));
    assert!(!secret_is_too_short(&s("ééééé")));
    assert!(secret_is_too_short(&s("éééé")));
}

#[test]
fn confirmation_word_is_exact() {
    assert!(confirmation_given(&Some(s("destroy"))));
    assert!(!confirmation_given(&Some(s("destroy "))));
    assert!(!confirmation_given(&Some(s("DESTROY"))));
    assert!(!confirmation_given(&Some(s(""))));
    assert!(!confirmation_given(&None));
}

#[test]
fn texts_of_booleans_and_status() {
    assert_eq!(bool_string(true), "true");
    assert_eq!(bool_string(false), "false");
    assert_eq!(status_string(false, false), "is opened: false\nis_initiatedfalse");
    assert_eq!(status_string(true, true), "is opened: true\nis_initiatedtrue");
}

#[test]
fn settings_need_token_first() {
    let r = settings_from(None, None, None, None);
    assert_eq!(r.unwrap_err(), SettingsError::MissingDiscordToken);
    assert_eq!(SettingsError::MissingDiscordToken.message(), "DISCORD_TOKEN environment variable is missing.");
}

#[test]
fn settings_need_network() {
    let r = settings_from(Some(s("tok")), None, Some(s("wallets")), None);
    assert_eq!(r.unwrap_err(), SettingsError::MissingNetwork);
    assert_eq!(SettingsError::MissingNetwork.message(), "SPECTRE_NETWORK environment variable is missing");
}

#[test]
fn settings_need_data_path() {
    let r = settings_from(Some(s("tok")), Some(s("mainnet")), None, Some(s("ws://node")));
    assert_eq!(r.unwrap_err(), SettingsError::MissingWalletDataPath);
    assert_eq!(SettingsError::MissingWalletDataPath.message(), "WALLET_DATA_PATH environment variable is missing");
}

#[test]
fn settings_complete() {
    let r = settings_from(Some(s("tok")), Some(s("mainnet")), Some(s("wallets")), Some(s("ws://node")));
    let settings = r.unwrap();
    assert_eq!(settings.discord_token, "tok");
    assert_eq!(settings.network, "mainnet");
    assert_eq!(settings.wallet_data_path, "wallets");
    assert_eq!(settings.forced_node, Some(s("ws://node")));
    let r = settings_from(Some(s("tok")), Some(s("testnet-10")), Some(s("w")), None);
    assert_eq!(r.unwrap().forced_node, None);
}

/// Runs `close` for `owner`, answering from `opened` as the opened set would.
fn close_against(opened: &mut std::collections::HashSet<String>, owner: &str) -> Vec<Action> {
    let (mut session, mut action) = Session::start(s(owner), Command::Close);
    let mut seen = Vec::new();
    loop {
        let event = match &action {
            Action::CheckOpened { owner } => Event::Opened(opened.contains(owner)),
            Action::RemoveOpenedWallet { owner } => Event::Removed(opened.remove(owner)),
            Action::CloseWallet => Event::Closed,
            Action::Reply(_) => Event::Replied,
            Action::Finish | Action::Abort => {
                seen.push(action);
                return seen;
            }
            other => panic!("close asked for {:?}", other),
        };
        let (next, a) = session.advance(event);
        seen.push(action);
        session = next;
        action = a;
    }
}

#[test]
fn close_is_idempotent() {
    let mut opened: std::collections::HashSet<String> = ["42".to_string(), "7".to_string()].into_iter().collect();
    let first = close_against(&mut opened, "42");
    assert!(first.iter().any(|a| matches!(a, Action::CloseWallet)));
    assert!(matches!(first.last(), Some(Action::Finish)));
    assert!(!opened.contains("42"));
    let before = opened.clone();
    let second = close_against(&mut opened, "42");
    assert_eq!(opened, before);
    assert!(!second.iter().any(|a| matches!(a, Action::CloseWallet | Action::RemoveOpenedWallet { .. })));
    assert!(matches!(&second[1], Action::Reply(discord_bot::Reply::Say(t)) if t == "wallet closed"));
    assert!(matches!(second.last(), Some(Action::Finish)));
    assert!(opened.contains("7"));
}

#[test]
fn short_secret_stops_every_secret_command() {
    for command in [
        Command::Create { secret: s("abc") },
        Command::Open { secret: s("abc") },
        Command::Restore { mnemonic: s("m"), secret: s("abc") },
    ] {
        let (session, a) = Session::start(s("1"), command);
        assert!(matches!(session.phase, Phase::Closing));
        assert!(matches!(a, Action::Reply(discord_bot::Reply::Error { .. })));
        let (_, a) = session.advance(Event::Replied);
        assert!(matches!(a, Action::Finish));
    }
}

/// The owners' wallets as the outside world keeps them.
struct Wallets {
    opened: std::collections::HashSet<String>,
    stored: std::collections::HashSet<String>,
}

/// Runs `command` for `owner` through a `CommandRun`, answering from `wallets`
/// and confirming destruction; stops at the first action it cannot answer.
fn run_against(wallets: &mut Wallets, owner: &str, command: Command) -> Vec<Action> {
    let (mut run, mut action) = discord_bot::CommandRun::start(s(owner), command);
    let mut seen = Vec::new();
    loop {
        let event = match &action {
            Action::CheckOpened { owner } => Event::Opened(wallets.opened.contains(owner)),
            Action::CheckStored { owner } => Event::Stored(wallets.stored.contains(owner)),
            Action::RemoveOpenedWallet { owner } => Event::Removed(wallets.opened.remove(owner)),
            Action::CloseWallet => Event::Closed,
            Action::EraseStoredWallet { owner } => {
                wallets.stored.remove(owner);
                Event::Erased
            }
            Action::AskConfirmation => Event::Confirmation(Some(s("destroy"))),
            Action::Reply(_) => Event::Replied,
            _ => {
                seen.push(action);
                return seen;
            }
        };
        let (next, a) = run.advance(event);
        seen.push(action);
        run = next;
        action = a;
    }
}

#[test]
fn destroy_then_status_and_create() {
    let mut wallets = Wallets {
        opened: ["42".to_string()].into_iter().collect(),
        stored: ["42".to_string(), "7".to_string()].into_iter().collect(),
    };
    let destroyed = run_against(&mut wallets, "42", Command::Destroy);
    assert!(destroyed.iter().any(|a| matches!(a, Action::Reply(discord_bot::Reply::Say(t)) if t == "destroy ok")));
    assert!(matches!(destroyed.last(), Some(Action::Finish)));
    assert!(!wallets.opened.contains("42"));
    assert!(!wallets.stored.contains("42"));
    assert!(wallets.stored.contains("7"));
    let status = run_against(&mut wallets, "42", Command::Status);
    assert!(matches!(&status[2], Action::Reply(discord_bot::Reply::Say(t)) if t == "is opened: false\nis_initiatedfalse"));
    let created = run_against(&mut wallets, "42", Command::Create { secret: s("0123456789") });
    assert!(matches!(&created[2], Action::CreateWallet { owner, secret } if owner == "42" && secret == "0123456789"));
}

#[test]
fn command_run_exposes_its_session() {
    let (run, a) = discord_bot::CommandRun::start(s("9"), Command::Status);
    assert!(matches!(a, Action::CheckOpened { .. }));
    assert!(matches!(run.session().phase, Phase::AwaitOpened));
    assert_eq!(run.session().owner, "9");
    let (run, _) = run.advance(Event::Opened(true));
    assert_eq!(run.session().opened, Some(true));
}
