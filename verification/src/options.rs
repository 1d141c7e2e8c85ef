//! The client's command-line values.
use vstd::prelude::*;
use vstd::string::StrSliceExecFns;

verus! {

/// When typed characters are shown before the remote side echoes them.
#[derive(Debug, Clone, Copy, PartialEq, Eq, Structural)]
pub enum PredictionMode {
    Always,
    Adaptive,
    Never,
}

/// The mode that an option value names. Every unknown value means adaptive.
pub open spec fn prediction_mode(value: Seq<char>) -> PredictionMode {
    if value == "always"@ {
        PredictionMode::Always
    } else if value == "never"@ {
        PredictionMode::Never
    } else {
        PredictionMode::Adaptive
    }
}

/// Reads the prediction mode from its option value.
pub fn parse_prediction_mode(value: &str) -> (r: PredictionMode)
    ensures
        r == prediction_mode(value@),
{
    let value: String = value.to_owned();
    if value == "always".to_owned() {
        PredictionMode::Always
    } else if value == "never".to_owned() {
        PredictionMode::Never
    } else {
        PredictionMode::Adaptive
    }
}

/// The input is `user@host`, split at its first `@`.
pub open spec fn splits_into(input: Seq<char>, user: Seq<char>, host: Seq<char>) -> bool {
    &&& input == user + seq!['@'] + host
    &&& !user.contains('@')
}

/// The user name where the option gives none: the first of the two names that
/// is known, else `root`.
pub open spec fn default_user(user: Option<String>, username: Option<String>) -> Seq<char> {
    match (user, username) {
        (Some(name), _) => name@,
        (None, Some(name)) => name@,
        (None, None) => "root"@,
    }
}

/// Parses `[user@]host` into user name and host name. `user` and `username` are
/// the values of the environment variables of these names, the fallbacks for
/// an absent user.
pub fn parse_user_host(input: &str, user: Option<String>, username: Option<String>) -> (r: (
    String,
    String,
))
    ensures
        input@.contains('@') ==> splits_into(input@, r.0@, r.1@),
        !input@.contains('@') ==> r.0@ == default_user(user, username) && r.1@ == input@,
{
    let len: usize = input.unicode_len();
    let mut at: usize = 0;
    while at < len && input.get_char(at) != '@'
        invariant
            at <= len,
            len == input@.len(),
            forall|i: int| 0 <= i < at ==> input@[i] != '@',
        decreases len - at,
    {
        at += 1;
    }
    if at < len {
        assert(input@.contains(input@[at as int]));
        assert(input@ =~= input@.subrange(0, at as int) + seq!['@'] + input@.subrange(
            at + 1,
            len as int,
        ));
        let name = input.substring_char(0, at).to_owned();
        let host = input.substring_char(at + 1, len).to_owned();
        (name, host)
    } else {
        let name = match (user, username) {
            (Some(name), _) => name,
            (None, Some(name)) => name,
            (None, None) => "root".to_owned(),
        };
        (name, input.to_owned())
    }
}

/// There is one way to split an input: user and host are determined by it, and
/// no input without an `@` can be split.
pub proof fn law_split_is_unique(
    input: Seq<char>,
    user: Seq<char>,
    host: Seq<char>,
    other_user: Seq<char>,
    other_host: Seq<char>,
)
    requires
        splits_into(input, user, host),
        splits_into(input, other_user, other_host),
    ensures
        user == other_user,
        host == other_host,
        input.contains('@'),
{
    assert(input[user.len() as int] == '@');
    assert(input[other_user.len() as int] == '@');
    if user.len() < other_user.len() {
        assert(other_user[user.len() as int] == '@');
    }
    if other_user.len() < user.len() {
        assert(user[other_user.len() as int] == '@');
    }
    assert(user =~= input.subrange(0, user.len() as int));
    assert(other_user =~= input.subrange(0, user.len() as int));
    assert(host =~= input.subrange(user.len() as int + 1, input.len() as int));
    assert(other_host =~= input.subrange(user.len() as int + 1, input.len() as int));
}

/// What a split is, character by character: the input is one longer than user
/// and host together, starts with the user, ends with the host, and has its
/// first `@` between them.
pub proof fn law_split_character_by_character(
    input: Seq<char>,
    user: Seq<char>,
    host: Seq<char>,
)
    ensures
        splits_into(input, user, host) <==> {
            &&& input.len() == user.len() + 1 + host.len()
            &&& input[user.len() as int] == '@'
            &&& forall|i: int|
                0 <= i < user.len() ==> #[trigger] user[i] == input[i] && input[i] != '@'
            &&& forall|i: int|
                0 <= i < host.len() ==> #[trigger] host[i] == input[user.len() + 1 + i]
        },
{
    let joined = user + seq!['@'] + host;
    if splits_into(input, user, host) {
        assert(joined[user.len() as int] == '@');
        assert forall|i: int| 0 <= i < user.len() implies #[trigger] user[i] == input[i] && input[i]
            != '@' by {
            assert(joined[i] == user[i]);
            assert(user.contains(user[i]));
        }
        assert forall|i: int| 0 <= i < host.len() implies #[trigger] host[i] == input[user.len() + 1
            + i] by {
            assert(joined[user.len() + 1 + i] == host[i]);
        }
    }
    if {
        &&& input.len() == user.len() + 1 + host.len()
        &&& input[user.len() as int] == '@'
        &&& forall|i: int|
            0 <= i < user.len() ==> #[trigger] user[i] == input[i] && input[i] != '@'
        &&& forall|i: int| 0 <= i < host.len() ==> #[trigger] host[i] == input[user.len() + 1 + i]
    } {
        assert forall|i: int| 0 <= i < input.len() implies input[i] == joined[i] by {
            if i > user.len() {
                assert(host[i - user.len() - 1] == input[i]);
            } else if i < user.len() {
                assert(user[i] == input[i]);
            }
        }
        assert(input =~= joined);
    }
}

/// Every input with an `@` can be split.
pub proof fn law_split_exists(input: Seq<char>)
    requires
        input.contains('@'),
    ensures
        exists|user: Seq<char>, host: Seq<char>| splits_into(input, user, host),
{
    input.index_of_first_ensures('@');
    let at = input.index_of_first('@')->0;
    let user = input.subrange(0, at);
    let host = input.subrange(at + 1, input.len() as int);
    assert(input =~= user + seq!['@'] + host);
    assert(splits_into(input, user, host));
}

/// The user name falls back to the first variable if it is set, whatever the
/// second holds, then to the second, and to `root` exactly if neither is set.
pub proof fn law_default_user(first: String, second: String, maybe: Option<String>)
    ensures
        default_user(Some(first), maybe) == first@,
        default_user(None, Some(second)) == second@,
        default_user(None, None) == seq!['r', 'o', 'o', 't'],
{
    reveal_strlit("root");
    assert("root"@ =~= seq!['r', 'o', 'o', 't']);
}

/// Two values name a mode other than adaptive, each its own, letter by letter.
pub proof fn law_prediction_modes(value: Seq<char>)
    ensures
        prediction_mode(value) == PredictionMode::Always <==> value == seq![
            'a',
            'l',
            'w',
            'a',
            'y',
            's',
        ],
        prediction_mode(value) == PredictionMode::Never <==> value == seq!['n', 'e', 'v', 'e', 'r'],
{
    reveal_strlit("always");
    reveal_strlit("never");
    assert("always"@ =~= seq!['a', 'l', 'w', 'a', 'y', 's']);
    assert("never"@ =~= seq!['n', 'e', 'v', 'e', 'r']);
    assert("always"@.len() != "never"@.len());
}

} // verus!
