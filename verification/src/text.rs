//! Small string helpers shared by the diagnostic and prompt builders.

use vstd::prelude::*;
use vstd::string::StringExecFns;

verus! {

/// The display path that `concat_relative_root` produces: `rel_root`, a
/// slash, and `name`, except that an empty `rel_root` contributes nothing.
pub open spec fn concat_relative_root_spec(rel_root: Seq<char>, name: Seq<char>) -> Seq<char> {
    if rel_root.len() == 0 {
        name
    } else {
        rel_root + seq!['/'] + name
    }
}

/// The character for one decimal digit.
pub open spec fn dec_digit(d: int) -> char {
    if d == 0 {
        '0'
    } else if d == 1 {
        '1'
    } else if d == 2 {
        '2'
    } else if d == 3 {
        '3'
    } else if d == 4 {
        '4'
    } else if d == 5 {
        '5'
    } else if d == 6 {
        '6'
    } else if d == 7 {
        '7'
    } else if d == 8 {
        '8'
    } else {
        '9'
    }
}

/// The decimal representation of a number, most significant digit first.
pub open spec fn dec_str(n: nat) -> Seq<char>
    decreases n,
{
    if n < 10 {
        seq![dec_digit(n as int)]
    } else {
        dec_str(n / 10) + seq![dec_digit((n % 10) as int)]
    }
}

/// Appends one decimal digit to `s`.
fn push_digit(d: u64, s: &mut String)
    requires
        d < 10,
    ensures
        final(s)@ == old(s)@ + seq![dec_digit(d as int)],
{
    let lit: &str = if d == 0 {
        "0"
    } else if d == 1 {
        "1"
    } else if d == 2 {
        "2"
    } else if d == 3 {
        "3"
    } else if d == 4 {
        "4"
    } else if d == 5 {
        "5"
    } else if d == 6 {
        "6"
    } else if d == 7 {
        "7"
    } else if d == 8 {
        "8"
    } else {
        "9"
    };
    proof {
        reveal_strlit("0");
        reveal_strlit("1");
        reveal_strlit("2");
        reveal_strlit("3");
        reveal_strlit("4");
        reveal_strlit("5");
        reveal_strlit("6");
        reveal_strlit("7");
        reveal_strlit("8");
        reveal_strlit("9");
        assert(lit@ =~= seq![dec_digit(d as int)]);
    }
    s.append(lit);
}

/// Appends the decimal representation of `n` to `s`.
pub fn push_decimal(n: u64, s: &mut String)
    ensures
        final(s)@ == old(s)@ + dec_str(n as nat),
    decreases n,
{
    if n >= 10 {
        push_decimal(n / 10, s);
    }
    push_digit(n % 10, s);
    proof {
        if n < 10 {
            assert(n % 10 == n);
            assert(s@ =~= old(s)@ + dec_str(n as nat));
        } else {
            assert(s@ =~= old(s)@ + dec_str(n as nat));
        }
    }
}

/// Joins the accumulated display root and an entity's display name with a
/// slash, leaving the name alone when the root is empty.
pub fn concat_relative_root(rel_root: &str, name: &str) -> (r: String)
    ensures
        r@ == concat_relative_root_spec(rel_root@, name@),
{
    let mut s = String::new();
    s.append(rel_root);
    if !rel_root.is_empty() {
        s.append("/");
    }
    s.append(name);
    proof {
        reveal_strlit("/");
        assert("/"@ =~= seq!['/']);
        assert(s@ =~= concat_relative_root_spec(rel_root@, name@));
    }
    s
}

} // verus!
