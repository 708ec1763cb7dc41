//! Why a message or a command cannot be routed.

use vstd::prelude::*;
use vstd::string::StringExecFns;

verus! {

/// A store that routing needs is not set up.
#[derive(Clone, Copy, Debug, PartialEq, Eq, Structural)]
pub enum TransportError {
    /// The store has no snapshot directory.
    MissingTempDir { store: u64 },
    /// The store has no router.
    MissingSender { store: u64 },
}

/// The decimal digit `d` as a character.
pub open spec fn digit_char(d: nat) -> char
    recommends
        d < 10,
{
    ('0' as int + d) as char
}

/// The decimal numeral of `n`, without leading zeros.
pub open spec fn decimal(n: nat) -> Seq<char>
    decreases n,
{
    if n < 10 {
        seq![digit_char(n)]
    } else {
        decimal(n / 10).push(digit_char(n % 10))
    }
}

impl TransportError {
    /// The text that an error is reported with.
    pub open spec fn spec_message(self) -> Seq<char> {
        match self {
            TransportError::MissingTempDir { store } => "missing temp dir for store "@ + decimal(
                store as nat,
            ),
            TransportError::MissingSender { store } => "missing sender for store "@ + decimal(
                store as nat,
            ),
        }
    }

    /// The text that an error is reported with: what is missing, then the store.
    pub fn message(&self) -> (text: String)
        ensures
            text@ == self.spec_message(),
    {
        match self {
            TransportError::MissingTempDir { store } => {
                "missing temp dir for store ".to_owned().concat(decimal_text(*store).as_str())
            },
            TransportError::MissingSender { store } => {
                "missing sender for store ".to_owned().concat(decimal_text(*store).as_str())
            },
        }
    }
}

/// The digit `d` as text.
fn digit_text(d: u64) -> (text: &'static str)
    requires
        d < 10,
    ensures
        text@ == seq![digit_char(d as nat)],
{
    proof {
        reveal_strlit("0");
        reveal_strlit("1");
        reveal_strlit("2");
        reveal_strlit("3");
        reveal_strlit("4");
        reveal_strlit("5");
        reveal_strlit("6");
        reveal_strlit("7");
        reveal_strlit("8");
        reveal_strlit("9");
    }
    match d {
        0 => "0",
        1 => "1",
        2 => "2",
        3 => "3",
        4 => "4",
        5 => "5",
        6 => "6",
        7 => "7",
        8 => "8",
        _ => "9",
    }
}

/// The decimal numeral of `n`.
fn decimal_text(n: u64) -> (text: String)
    ensures
        text@ == decimal(n as nat),
    decreases n,
{
    if n < 10 {
        digit_text(n).to_owned()
    } else {
        let text = decimal_text(n / 10).concat(digit_text(n % 10));
        assert(text@ == decimal(n as nat / 10).push(digit_char(n as nat % 10)));
        text
    }
}

/// The number that a text of decimal digits is read as.
pub open spec fn read_decimal(text: Seq<char>) -> int
    decreases text.len(),
{
    if text.len() == 0 {
        0
    } else {
        10 * read_decimal(text.drop_last()) + (text.last() as int - '0' as int)
    }
}

/// The numeral of a number consists of digits, has no leading zero, and is read as
/// that number again.
pub proof fn law_numeral_reads_back(n: nat)
    ensures
        decimal(n).len() > 0,
        forall|i: int| 0 <= i < decimal(n).len() ==> '0' <= #[trigger] decimal(n)[i] <= '9',
        decimal(n)[0] == '0' ==> n == 0 && decimal(n).len() == 1,
        read_decimal(decimal(n)) == n,
    decreases n,
{
    reveal_with_fuel(read_decimal, 2);
    if n < 10 {
        assert(decimal(n).drop_last() == Seq::<char>::empty());
    } else {
        law_numeral_reads_back(n / 10);
        assert(decimal(n).drop_last() == decimal(n / 10));
    }
}

/// The text of an error says what is missing, and ends with the number of the store.
pub proof fn law_text_names_what_is_missing_and_where(error: TransportError)
    ensures
        ({
            let text = error.spec_message();
            let (what, store) = match error {
                TransportError::MissingTempDir { store } => (
                    "missing temp dir for store "@,
                    store,
                ),
                TransportError::MissingSender { store } => ("missing sender for store "@, store),
            };
            let number = text.skip(what.len() as int);
            &&& text.len() > what.len()
            &&& text.take(what.len() as int) == what
            &&& forall|i: int| 0 <= i < number.len() ==> '0' <= #[trigger] number[i] <= '9'
            &&& number[0] == '0' ==> number.len() == 1
            &&& read_decimal(number) == store
        }),
{
    let (what, store) = match error {
        TransportError::MissingTempDir { store } => ("missing temp dir for store "@, store),
        TransportError::MissingSender { store } => ("missing sender for store "@, store),
    };
    law_numeral_reads_back(store as nat);
    let text = what + decimal(store as nat);
    assert(text.take(what.len() as int) == what);
    assert(text.skip(what.len() as int) == decimal(store as nat));
}

/// Two errors with the same text are the same error.
pub proof fn law_text_tells_errors_apart(error: TransportError, other: TransportError)
    requires
        error.spec_message() == other.spec_message(),
    ensures
        error == other,
{
    law_text_names_what_is_missing_and_where(error);
    law_text_names_what_is_missing_and_where(other);
    reveal_strlit("missing temp dir for store ");
    reveal_strlit("missing sender for store ");
    let dir = "missing temp dir for store "@;
    let sender = "missing sender for store "@;
    assert(dir[8] != sender[8]);
    let text = error.spec_message();
    assert(error is MissingTempDir || other is MissingTempDir ==> text.take(
        dir.len() as int,
    )[8] == text[8]);
    assert(error is MissingSender || other is MissingSender ==> text.take(
        sender.len() as int,
    )[8] == text[8]);
}

} // verus!
