use vstd::prelude::*;

verus! {

/// The recognised text commands.
#[derive(Debug, Clone, Copy, PartialEq, Eq, Structural)]
pub enum CommandName {
    New,
    End,
    Dead,
    Stop,
}

/// The prefix that opens a command.
pub const COMMAND_PREFIX: char = '~';

/// The delay, in seconds, before the automatic mute after `new` when none is
/// given.
pub const DEFAULT_MUTE_DELAY: u64 = 5;

pub open spec fn is_space(c: char) -> bool {
    c == ' ' || c == '\t' || c == '\n' || c == '\r'
}

/// The first index at or after `i` that holds no space.
pub open spec fn skip_spaces(s: Seq<char>, i: int) -> int
    decreases s.len() - i,
{
    if 0 <= i < s.len() && is_space(s[i]) {
        skip_spaces(s, i + 1)
    } else {
        i
    }
}

/// The first index at or after `i` that holds a space, or the end.
pub open spec fn word_end(s: Seq<char>, i: int) -> int
    decreases s.len() - i,
{
    if 0 <= i < s.len() && !is_space(s[i]) {
        word_end(s, i + 1)
    } else {
        i
    }
}

pub open spec fn command_name_of(w: Seq<char>) -> Option<CommandName> {
    if w == seq!['n', 'e', 'w'] {
        Some(CommandName::New)
    } else if w == seq!['e', 'n', 'd'] {
        Some(CommandName::End)
    } else if w == seq!['d', 'e', 'a', 'd'] {
        Some(CommandName::Dead)
    } else if w == seq!['s', 't', 'o', 'p'] {
        Some(CommandName::Stop)
    } else {
        None
    }
}

/// A command is the prefix, then (after optional spaces) a command name that
/// is a whole word; its argument is the next word, if there is one.
pub open spec fn command_of(s: Seq<char>) -> Option<(CommandName, Option<Seq<char>>)> {
    if s.len() > 0 && s[0] == COMMAND_PREFIX {
        let a = skip_spaces(s, 1);
        let b = word_end(s, a);
        match command_name_of(s.subrange(a, b)) {
            None => None,
            Some(name) => {
                let c = skip_spaces(s, b);
                let d = word_end(s, c);
                Some((name, if c < d { Some(s.subrange(c, d)) } else { None }))
            },
        }
    } else {
        None
    }
}

/// A command read from a chat message.
#[derive(Debug, PartialEq, Eq)]
pub struct ParsedCommand {
    pub name: CommandName,
    pub argument: Option<Vec<char>>,
}

pub open spec fn argument_view(a: Option<Vec<char>>) -> Option<Seq<char>> {
    match a {
        Some(v) => Some(v@),
        None => None,
    }
}

fn is_space_char(c: char) -> (r: bool)
    ensures
        r == is_space(c),
{
    c == ' ' || c == '\t' || c == '\n' || c == '\r'
}

fn skip_spaces_from(s: &Vec<char>, start: usize) -> (r: usize)
    requires
        start <= s@.len(),
    ensures
        r == skip_spaces(s@, start as int),
        start <= r <= s@.len(),
{
    let mut i = start;
    while i < s.len() && is_space_char(s[i])
        invariant
            start <= i <= s@.len(),
            skip_spaces(s@, i as int) == skip_spaces(s@, start as int),
        decreases s.len() - i,
    {
        i = i + 1;
    }
    i
}

fn word_end_from(s: &Vec<char>, start: usize) -> (r: usize)
    requires
        start <= s@.len(),
    ensures
        r == word_end(s@, start as int),
        start <= r <= s@.len(),
{
    let mut i = start;
    while i < s.len() && !is_space_char(s[i])
        invariant
            start <= i <= s@.len(),
            word_end(s@, i as int) == word_end(s@, start as int),
        decreases s.len() - i,
    {
        i = i + 1;
    }
    i
}

fn copy_range(s: &Vec<char>, from: usize, to: usize) -> (r: Vec<char>)
    requires
        from <= to <= s@.len(),
    ensures
        r@ == s@.subrange(from as int, to as int),
{
    let mut r: Vec<char> = Vec::new();
    let mut i = from;
    while i < to
        invariant
            from <= i <= to <= s@.len(),
            r@ == s@.subrange(from as int, i as int),
        decreases to - i,
    {
        r.push(s[i]);
        i = i + 1;
        assert(r@ =~= s@.subrange(from as int, i as int));
    }
    r
}

fn name_in(s: &Vec<char>, from: usize, to: usize) -> (r: Option<CommandName>)
    requires
        from <= to <= s@.len(),
    ensures
        r == command_name_of(s@.subrange(from as int, to as int)),
{
    let w = copy_range(s, from, to);
    let n = w.len();
    if n == 3 && w[0] == 'n' && w[1] == 'e' && w[2] == 'w' {
        assert(w@ =~= seq!['n', 'e', 'w']);
        Some(CommandName::New)
    } else if n == 3 && w[0] == 'e' && w[1] == 'n' && w[2] == 'd' {
        assert(w@ =~= seq!['e', 'n', 'd']);
        Some(CommandName::End)
    } else if n == 4 && w[0] == 'd' && w[1] == 'e' && w[2] == 'a' && w[3] == 'd' {
        assert(w@ =~= seq!['d', 'e', 'a', 'd']);
        Some(CommandName::Dead)
    } else if n == 4 && w[0] == 's' && w[1] == 't' && w[2] == 'o' && w[3] == 'p' {
        assert(w@ =~= seq!['s', 't', 'o', 'p']);
        Some(CommandName::Stop)
    } else {
        assert(w@ != seq!['n', 'e', 'w']) by {
            if w@ == seq!['n', 'e', 'w'] {
                assert(w@[0] == 'n' && w@[1] == 'e' && w@[2] == 'w');
            }
        }
        assert(w@ != seq!['e', 'n', 'd']) by {
            if w@ == seq!['e', 'n', 'd'] {
                assert(w@[0] == 'e' && w@[1] == 'n' && w@[2] == 'd');
            }
        }
        assert(w@ != seq!['d', 'e', 'a', 'd']) by {
            if w@ == seq!['d', 'e', 'a', 'd'] {
                assert(w@[0] == 'd' && w@[1] == 'e' && w@[2] == 'a' && w@[3] == 'd');
            }
        }
        assert(w@ != seq!['s', 't', 'o', 'p']) by {
            if w@ == seq!['s', 't', 'o', 'p'] {
                assert(w@[0] == 's' && w@[1] == 't' && w@[2] == 'o' && w@[3] == 'p');
            }
        }
        None
    }
}

/// Reads a command out of a chat message's text. Text that is not a
/// recognised command gives `None`.
pub fn parse_command(content: &Vec<char>) -> (r: Option<ParsedCommand>)
    ensures
        r is None ==> command_of(content@) is None,
        r is Some ==> command_of(content@) == Some(
            (r->Some_0.name, argument_view(r->Some_0.argument)),
        ),
{
    if content.len() == 0 || content[0] != COMMAND_PREFIX {
        return None;
    }
    let a = skip_spaces_from(content, 1);
    let b = word_end_from(content, a);
    let name = match name_in(content, a, b) {
        None => { return None; },
        Some(n) => n,
    };
    let c = skip_spaces_from(content, b);
    let d = word_end_from(content, c);
    let argument = if c < d {
        Some(copy_range(content, c, d))
    } else {
        None
    };
    Some(ParsedCommand { name, argument })
}

pub open spec fn is_digit(c: char) -> bool {
    '0' <= c <= '9'
}

pub open spec fn digit_value(c: char) -> nat {
    ((c as u32) - ('0' as u32)) as nat
}

/// The number that a string of decimal digits writes.
pub open spec fn digits_value(s: Seq<char>) -> nat
    decreases s.len(),
{
    if s.len() == 0 {
        0
    } else {
        digits_value(s.drop_last()) * 10 + digit_value(s.last())
    }
}

pub open spec fn all_digits(d: Seq<char>) -> bool {
    forall|i: int| 0 <= i < d.len() ==> is_digit(#[trigger] d[i])
}

/// `s` without a leading `+`, if it has one.
pub open spec fn unsigned_part(s: Seq<char>) -> Seq<char> {
    if s.len() > 0 && s[0] == '+' {
        s.subrange(1, s.len() as int)
    } else {
        s
    }
}

/// The unsigned 64-bit number that `s` writes in decimal, with an optional
/// leading `+`, if it writes one that fits.
pub open spec fn decimal_of(s: Seq<char>) -> Option<u64> {
    let d = unsigned_part(s);
    if d.len() > 0 && all_digits(d) && digits_value(d) <= u64::MAX {
        Some(digits_value(d) as u64)
    } else {
        None
    }
}

/// Reads an unsigned 64-bit decimal number.
pub fn parse_decimal(s: &Vec<char>) -> (r: Option<u64>)
    ensures
        r == decimal_of(s@),
{
    let start: usize = if s.len() > 0 && s[0] == '+' {
        1
    } else {
        0
    };
    let ghost d = s@.subrange(start as int, s@.len() as int);
    assert(d =~= unsigned_part(s@));
    if start == s.len() {
        return None;
    }
    let mut acc: u64 = 0;
    let mut too_large = false;
    let mut i = start;
    while i < s.len()
        invariant
            start <= i <= s@.len(),
            d == s@.subrange(start as int, s@.len() as int),
            d == unsigned_part(s@),
            forall|j: int| 0 <= j < i - start ==> is_digit(#[trigger] d[j]),
            !too_large ==> acc as nat == digits_value(d.take(i - start)),
            too_large ==> digits_value(d.take(i - start)) > u64::MAX,
        decreases s.len() - i,
    {
        let c = s[i];
        if !('0' <= c && c <= '9') {
            assert(d[i - start] == c);
            assert(!is_digit(d[i - start]));
            assert(!all_digits(d));
            return None;
        }
        let ghost prev = d.take(i - start);
        assert(d.take(i - start + 1).drop_last() =~= prev);
        assert(d.take(i - start + 1).last() == c);
        let digit = (c as u32 - '0' as u32) as u64;
        if !too_large {
            let next: u128 = acc as u128 * 10 + digit as u128;
            if next > u64::MAX as u128 {
                too_large = true;
            } else {
                acc = next as u64;
            }
        }
        i = i + 1;
    }
    assert(d.take(s@.len() - start) =~= d);
    if too_large {
        None
    } else {
        Some(acc)
    }
}

/// The delay before the automatic mute after `new`: the argument read as a
/// number of seconds, or the default when there is none or it is no number;
/// a delay of zero means no delay (`None`).
pub open spec fn mute_delay_of(argument: Option<Seq<char>>) -> Option<u64> {
    let read = match argument {
        Some(a) => decimal_of(a),
        None => None,
    };
    match read {
        None => Some(DEFAULT_MUTE_DELAY),
        Some(t) => if t == 0 { None } else { Some(t) },
    }
}

/// The delay, in seconds, before the automatic mute after `new`.
pub fn mute_delay(argument: &Option<Vec<char>>) -> (r: Option<u64>)
    ensures
        r == mute_delay_of(argument_view(*argument)),
{
    let read = match argument {
        Some(a) => parse_decimal(a),
        None => None,
    };
    match read {
        None => Some(DEFAULT_MUTE_DELAY),
        Some(t) => if t == 0 { None } else { Some(t) },
    }
}

/// What twilight-mention reads as a user mention out of a whole buffer.
pub uninterp spec fn user_mention_of(s: Seq<char>) -> Option<u64>;

/// Relies on twilight_mention::ParseMention::parse for UserId: the whole
/// buffer is read as one user mention (`<@id>` or `<@!id>`), and a buffer that
/// does not open with `<` is refused.
#[verifier::external_body]
fn parse_user_mention(text: &Vec<char>) -> (r: Option<u64>)
    ensures
        r == user_mention_of(text@),
        (text@.len() == 0 || text@[0] != '<') ==> r is None,
{
    let buf: String = text.iter().collect();
    <twilight_model::id::UserId as twilight_mention::ParseMention>::parse(&buf).ok().map(|id| id.0)
}

/// The member that the argument of `dead` names, if it is a user mention.
pub fn mention_target(argument: &Option<Vec<char>>) -> (r: Option<u64>)
    ensures
        r == match argument_view(*argument) {
            Some(a) => user_mention_of(a),
            None => None,
        },
{
    match argument {
        Some(a) => parse_user_mention(a),
        None => None,
    }
}

} // verus!
