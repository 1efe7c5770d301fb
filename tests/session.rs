use meeting_moderator::command::{mention_target, mute_delay, parse_command, parse_decimal, CommandName};
use meeting_moderator::dispatch::{classify_symbol, Effect, ReactionEvent, Symbol};
use meeting_moderator::session::{SessionError, SessionManager};
use meeting_moderator::voice::VoiceMuteCoordinator;

const A: u64 = 100;
const B: u64 = 200;
const C: u64 = 300;
const D: u64 = 400;
const OWNER: u64 = 900;
const BOT: u64 = 1;
const GUILD: u64 = 77;
const CONTROL: u64 = 5000;

fn chars(s: &str) -> Vec<char> {
    s.chars().collect()
}

fn sorted(mut v: Vec<u64>) -> Vec<u64> {
    v.sort();
    v
}

fn running_game() -> SessionManager {
    let mut m = SessionManager::new(vec![OWNER]);
    assert_eq!(m.start(A, GUILD), Ok(()));
    assert_eq!(m.bind_control_message(CONTROL), Ok(()));
    m
}

fn reaction(message: u64, user: u64, symbol: Symbol) -> ReactionEvent {
    ReactionEvent { message, user, symbol }
}

#[test]
fn second_start_is_refused() {
    let mut m = SessionManager::new(vec![OWNER]);
    assert!(!m.is_in_progress());
    assert_eq!(m.start(A, GUILD), Ok(()));
    assert_eq!(m.start(B, GUILD), Err(SessionError::SessionAlreadyActive));
    assert_eq!(m.initiator(), Some(A));
    assert_eq!(m.end(), Ok(vec![]));
    assert!(!m.is_in_progress());
    assert_eq!(m.end(), Err(SessionError::NoActiveSession));
    assert_eq!(m.start(B, GUILD), Ok(()));
    assert_eq!(m.initiator(), Some(B));
}

#[test]
fn control_belongs_to_initiator_and_owners() {
    let mut m = SessionManager::new(vec![OWNER, 901]);
    assert!(m.is_in_control(OWNER));
    assert!(!m.is_in_control(A));
    m.start(A, GUILD).unwrap();
    assert!(m.is_in_control(A));
    assert!(m.is_in_control(OWNER));
    assert!(m.is_in_control(901));
    assert!(!m.is_in_control(B));
    m.mark_dead(B);
    assert!(m.is_in_control(A));
    assert!(!m.is_in_control(B));
    m.end().unwrap();
    assert!(!m.is_in_control(A));
    assert!(m.is_in_control(OWNER));
}

#[test]
fn mute_all_twice_matches_once() {
    let mut v = VoiceMuteCoordinator::new();
    let first = v.mute_all(&vec![1, 2, 2, 3]);
    assert_eq!(sorted(first), vec![1, 2, 3]);
    let once = sorted(v.muted_members());
    let second = v.mute_all(&vec![1, 2, 2, 3]);
    assert!(second.is_empty());
    assert_eq!(sorted(v.muted_members()), once);
}

#[test]
fn unmute_all_releases_only_own_mutes() {
    let mut v = VoiceMuteCoordinator::new();
    v.mute_all(&vec![1, 2]);
    let released = v.unmute_all();
    assert_eq!(sorted(released), vec![1, 2]);
    assert!(!v.is_muted(1));
    assert!(v.unmute_all().is_empty());
}

#[test]
fn reaction_on_other_message_changes_nothing() {
    let mut m = running_game();
    for other in [0u64, CONTROL - 1, CONTROL + 1, u64::MAX] {
        for symbol in [Symbol::Emergency, Symbol::Dead, Symbol::Other] {
            assert_eq!(m.on_reaction_add(BOT, reaction(other, A, symbol), &vec![A, B]), Effect::Nothing);
            assert_eq!(m.on_reaction_remove(BOT, reaction(other, A, symbol)), Effect::Nothing);
        }
    }
    assert!(!m.is_meeting_active());
    assert!(!m.is_dead(A));
    assert!(!m.is_muted(A));
}

#[test]
fn new_zero_mutes_at_once() {
    let parsed = parse_command(&chars("~new 0")).unwrap();
    assert_eq!(parsed.name, CommandName::New);
    assert_eq!(mute_delay(&parsed.argument), None);
    let mut m = SessionManager::new(vec![OWNER]);
    assert_eq!(m.start(A, GUILD), Ok(()));
    assert_eq!(m.initiator(), Some(A));
    assert_eq!(m.guild(), Some(GUILD));
    assert_eq!(m.bind_control_message(CONTROL), Ok(()));
    assert_eq!(m.control_message(), Some(CONTROL));
    let muted = m.mute_players(&vec![A, B, C]);
    assert_eq!(sorted(muted), vec![A, B, C]);
    assert!(m.is_muted(B));
    assert!(!m.is_meeting_active());
}

#[test]
fn emergency_by_initiator_mutes_then_unmutes() {
    let mut m = running_game();
    let voice = vec![A, B, C];
    let add = m.on_reaction_add(BOT, reaction(CONTROL, A, Symbol::Emergency), &voice);
    match add {
        Effect::Mute(v) => assert_eq!(sorted(v), vec![A, B, C]),
        other => panic!("unexpected {:?}", other),
    }
    assert!(m.is_meeting_active());
    assert!(m.is_muted(C));
    let remove = m.on_reaction_remove(BOT, reaction(CONTROL, A, Symbol::Emergency));
    match remove {
        Effect::Unmute(v) => assert_eq!(sorted(v), vec![A, B, C]),
        other => panic!("unexpected {:?}", other),
    }
    assert!(!m.is_meeting_active());
    assert!(!m.is_muted(A));
}

#[test]
fn dead_symbol_is_self_service_but_emergency_is_not() {
    let mut m = running_game();
    assert_eq!(m.on_reaction_add(BOT, reaction(CONTROL, B, Symbol::Dead), &vec![A, B]), Effect::GrantDead(B));
    assert!(m.is_dead(B));
    assert_eq!(m.on_reaction_add(BOT, reaction(CONTROL, B, Symbol::Emergency), &vec![A, B]), Effect::Nothing);
    assert!(!m.is_meeting_active());
    assert!(!m.is_muted(A));
}

#[test]
fn dead_command_from_outsider_is_refused() {
    let mut m = running_game();
    let parsed = parse_command(&chars("~dead <@300>")).unwrap();
    assert_eq!(parsed.name, CommandName::Dead);
    let target = mention_target(&parsed.argument);
    assert_eq!(target, Some(C));
    assert_eq!(m.dead_command(D, target), Err(SessionError::Unauthorized));
    assert!(!m.is_dead(C));
    assert_eq!(m.dead_command(A, target), Ok(C));
    assert!(m.is_dead(C));
}

#[test]
fn stop_during_meeting_unmutes_and_ends() {
    let mut m = running_game();
    m.call_emergency_meeting(&vec![A, B]).unwrap();
    assert!(m.is_meeting_active());
    assert_eq!(m.stop_command(B), Err(SessionError::Unauthorized));
    assert!(m.is_in_progress());
    let released = m.stop_command(A).unwrap();
    assert_eq!(sorted(released), vec![A, B]);
    assert!(!m.is_in_progress());
    assert!(!m.is_muted(A));
    assert_eq!(m.on_reaction_add(BOT, reaction(CONTROL, A, Symbol::Emergency), &vec![A]), Effect::Nothing);
    assert!(!m.is_muted(A));
}

#[test]
fn stop_by_owner_without_game() {
    let mut m = SessionManager::new(vec![OWNER]);
    assert_eq!(m.stop_command(OWNER), Ok(vec![]));
    assert_eq!(m.stop_command(A), Err(SessionError::Unauthorized));
}

#[test]
fn end_command_outcomes() {
    let mut m = SessionManager::new(vec![OWNER]);
    assert_eq!(m.end_command(OWNER), Err(SessionError::NoActiveSession));
    m.start(A, GUILD).unwrap();
    assert_eq!(m.end_command(B), Err(SessionError::Unauthorized));
    assert!(m.is_in_progress());
    assert_eq!(m.end_command(OWNER), Ok(vec![]));
    assert!(!m.is_in_progress());
}

#[test]
fn dead_command_outcomes() {
    let mut m = SessionManager::new(vec![OWNER]);
    assert_eq!(m.dead_command(OWNER, Some(C)), Err(SessionError::NoActiveSession));
    m.start(A, GUILD).unwrap();
    assert_eq!(m.dead_command(A, None), Err(SessionError::MalformedCommand));
    assert_eq!(m.dead_command(OWNER, Some(C)), Ok(C));
    assert_eq!(m.dead_command(OWNER, Some(C)), Ok(C));
    assert_eq!(m.mark_dead(C), false);
    assert_eq!(m.mark_dead(D), true);
}

#[test]
fn control_message_binds_once() {
    let mut m = SessionManager::new(vec![]);
    assert_eq!(m.bind_control_message(CONTROL), Err(SessionError::NoActiveSession));
    m.start(A, GUILD).unwrap();
    assert!(!m.is_control_reaction(CONTROL));
    m.bind_control_message(CONTROL).unwrap();
    m.bind_control_message(CONTROL + 1).unwrap();
    assert_eq!(m.control_message(), Some(CONTROL));
    assert!(m.is_control_reaction(CONTROL));
    assert!(!m.is_control_reaction(CONTROL + 1));
    m.end().unwrap();
    assert!(!m.is_control_reaction(CONTROL));
}

#[test]
fn bot_reactions_are_ignored() {
    let mut m = running_game();
    assert_eq!(m.on_reaction_add(A, reaction(CONTROL, A, Symbol::Emergency), &vec![B]), Effect::Nothing);
    assert!(!m.is_meeting_active());
}

#[test]
fn withdrawal_without_meeting_is_no_error() {
    let mut m = running_game();
    assert_eq!(m.on_reaction_remove(BOT, reaction(CONTROL, A, Symbol::Emergency)), Effect::Unmute(vec![]));
    assert!(!m.is_meeting_active());
}

#[test]
fn mute_players_without_session_does_nothing() {
    let mut m = SessionManager::new(vec![]);
    assert!(m.mute_players(&vec![A, B]).is_empty());
    assert!(!m.is_muted(A));
    assert_eq!(m.call_emergency_meeting(&vec![A]), Err(SessionError::NoActiveSession));
}

#[test]
fn commands_are_read() {
    let end = parse_command(&chars("~end")).unwrap();
    assert_eq!(end.name, CommandName::End);
    assert_eq!(end.argument, None);
    let stop = parse_command(&chars("~ stop now")).unwrap();
    assert_eq!(stop.name, CommandName::Stop);
    assert_eq!(stop.argument, Some(chars("now")));
    let new = parse_command(&chars("~new   12  x")).unwrap();
    assert_eq!(new.argument, Some(chars("12")));
    assert_eq!(parse_command(&chars("~newer")), None);
    assert_eq!(parse_command(&chars("~New")), None);
    assert_eq!(parse_command(&chars("new")), None);
    assert_eq!(parse_command(&chars("")), None);
    assert_eq!(parse_command(&chars("~")), None);
}

#[test]
fn mute_delay_values() {
    assert_eq!(mute_delay(&None), Some(5));
    assert_eq!(mute_delay(&Some(chars("12"))), Some(12));
    assert_eq!(mute_delay(&Some(chars("0"))), None);
    assert_eq!(mute_delay(&Some(chars("soon"))), Some(5));
    assert_eq!(mute_delay(&Some(chars("18446744073709551616"))), Some(5));
    assert_eq!(parse_decimal(&chars("18446744073709551615")), Some(u64::MAX));
    assert_eq!(parse_decimal(&chars("+7")), Some(7));
    assert_eq!(parse_decimal(&chars("+")), None);
    assert_eq!(parse_decimal(&chars("-1")), None);
    assert_eq!(parse_decimal(&chars("")), None);
}

#[test]
fn mentions_are_read() {
    assert_eq!(mention_target(&Some(chars("<@42>"))), Some(42));
    assert_eq!(mention_target(&Some(chars("<@!42>"))), Some(42));
    assert_eq!(mention_target(&Some(chars("42"))), None);
    assert_eq!(mention_target(&None), None);
}

#[test]
fn symbols_are_classified() {
    assert_eq!(classify_symbol(&chars("\u{1F534}")), Symbol::Emergency);
    assert_eq!(classify_symbol(&chars("\u{1F480}")), Symbol::Dead);
    assert_eq!(classify_symbol(&chars("x")), Symbol::Other);
    assert_eq!(classify_symbol(&chars("\u{1F534}\u{1F534}")), Symbol::Other);
}
