//! Discrete intents and the translation of key identifiers into them.

use vstd::prelude::*;
use vstd::string::StrSliceExecFns;

verus! {

/// One discrete intent, derived from one input event.
#[derive(Clone, Copy, Debug, PartialEq, Eq, Structural)]
pub enum ActionCode {
    Up,
    Right,
    Down,
    Left,
    Primary,
    /// The idle action: no key is held.
    Idle,
    /// A key that the mapping table does not hold.
    Unrecognized,
}

impl ActionCode {
    /// Whether the action leaves every entity where it is.
    pub open spec fn is_motionless(self) -> bool {
        self is Primary || self is Idle || self is Unrecognized
    }

    /// The integer under which the action travels across a numeric boundary.
    pub open spec fn spec_code(self) -> int {
        match self {
            ActionCode::Up => 0,
            ActionCode::Right => 1,
            ActionCode::Down => 2,
            ActionCode::Left => 3,
            ActionCode::Primary => 4,
            ActionCode::Idle => 5,
            ActionCode::Unrecognized => 6,
        }
    }

    /// The action that an integer stands for; every integer without a meaning
    /// of its own stands for `Unrecognized`.
    pub open spec fn spec_from_code(code: int) -> ActionCode {
        if code == 0 {
            ActionCode::Up
        } else if code == 1 {
            ActionCode::Right
        } else if code == 2 {
            ActionCode::Down
        } else if code == 3 {
            ActionCode::Left
        } else if code == 4 {
            ActionCode::Primary
        } else if code == 5 {
            ActionCode::Idle
        } else {
            ActionCode::Unrecognized
        }
    }

    /// Encodes the action as an integer.
    pub fn code(self) -> (code: i32)
        ensures
            code == self.spec_code(),
    {
        match self {
            ActionCode::Up => 0,
            ActionCode::Right => 1,
            ActionCode::Down => 2,
            ActionCode::Left => 3,
            ActionCode::Primary => 4,
            ActionCode::Idle => 5,
            ActionCode::Unrecognized => 6,
        }
    }

    /// Decodes an integer; total, with `Unrecognized` for every other integer.
    pub fn from_code(code: i32) -> (action: ActionCode)
        ensures
            action == Self::spec_from_code(code as int),
    {
        if code == 0 {
            ActionCode::Up
        } else if code == 1 {
            ActionCode::Right
        } else if code == 2 {
            ActionCode::Down
        } else if code == 3 {
            ActionCode::Left
        } else if code == 4 {
            ActionCode::Primary
        } else if code == 5 {
            ActionCode::Idle
        } else {
            ActionCode::Unrecognized
        }
    }

    /// Decoding undoes encoding.
    pub proof fn lemma_code_round_trip(self)
        ensures
            Self::spec_from_code(self.spec_code()) == self,
            0 <= self.spec_code() <= 6,
    {
    }
}

/// Whether the mapping table holds the key identifier. The table is fixed and
/// case-sensitive.
pub open spec fn is_mapped(key: Seq<char>) -> bool {
    ||| key == "ArrowUp"@
    ||| key == "ArrowRight"@
    ||| key == "ArrowDown"@
    ||| key == "ArrowLeft"@
    ||| key == " "@
}

/// The action that a key identifier stands for.
pub open spec fn key_action(key: Seq<char>) -> ActionCode {
    if key == "ArrowUp"@ {
        ActionCode::Up
    } else if key == "ArrowRight"@ {
        ActionCode::Right
    } else if key == "ArrowDown"@ {
        ActionCode::Down
    } else if key == "ArrowLeft"@ {
        ActionCode::Left
    } else if key == " "@ {
        ActionCode::Primary
    } else {
        ActionCode::Unrecognized
    }
}

/// The five keys of the table are pairwise distinct, so each stands for its own
/// action, and a key outside the table stands for `Unrecognized`.
pub proof fn lemma_key_table()
    ensures
        key_action("ArrowUp"@) == ActionCode::Up,
        key_action("ArrowRight"@) == ActionCode::Right,
        key_action("ArrowDown"@) == ActionCode::Down,
        key_action("ArrowLeft"@) == ActionCode::Left,
        key_action(" "@) == ActionCode::Primary,
        forall|key: Seq<char>| !is_mapped(key) ==> #[trigger] key_action(key) == ActionCode::Unrecognized,
        forall|key: Seq<char>| is_mapped(key) ==> #[trigger] key_action(key) != ActionCode::Unrecognized,
        forall|key: Seq<char>| !(#[trigger] key_action(key) is Idle),
{
    reveal_strlit("ArrowUp");
    reveal_strlit("ArrowRight");
    reveal_strlit("ArrowDown");
    reveal_strlit("ArrowLeft");
    reveal_strlit(" ");
    assert(" "@.len() == 1);
    assert("ArrowUp"@.len() == 7);
    assert("ArrowRight"@.len() == 10);
    assert("ArrowDown"@[5] == 'D');
    assert("ArrowLeft"@[5] == 'L');
}

/// Whether two strings hold the same characters.
fn same_text(a: &str, b: &str) -> (same: bool)
    ensures
        same == (a@ == b@),
{
    let n: usize = a.unicode_len();
    if n != b.unicode_len() {
        return false;
    }
    let mut i: usize = 0;
    while i < n
        invariant
            n == a@.len(),
            n == b@.len(),
            i <= n,
            forall|j: int| 0 <= j < i ==> a@[j] == b@[j],
        decreases n - i,
    {
        if a.get_char(i) != b.get_char(i) {
            return false;
        }
        i += 1;
    }
    assert(a@ =~= b@);
    true
}

/// Translates a key identifier into an action. Total: a key outside the table
/// gives `Unrecognized`.
pub fn translate(key: &str) -> (action: ActionCode)
    ensures
        action == key_action(key@),
        !is_mapped(key@) ==> action == ActionCode::Unrecognized,
{
    if same_text(key, "ArrowUp") {
        ActionCode::Up
    } else if same_text(key, "ArrowRight") {
        ActionCode::Right
    } else if same_text(key, "ArrowDown") {
        ActionCode::Down
    } else if same_text(key, "ArrowLeft") {
        ActionCode::Left
    } else if same_text(key, " ") {
        ActionCode::Primary
    } else {
        ActionCode::Unrecognized
    }
}

} // verus!
