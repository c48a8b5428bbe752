//! Placeholder dialects: which token stands in for a bound parameter in SQL
//! text, per target database.

use vstd::prelude::*;

verus! {

/// The placeholder strategy of a target database: sqlite and mysql use a
/// repeated single-character token, postgres uses sequentially numbered
/// tokens.
#[derive(Debug, Clone, Copy, PartialEq, Eq, Structural)]
pub enum Dialect {
    /// `?` for every parameter.
    Sqlite,
    /// `?` for every parameter.
    MySql,
    /// `$1`, `$2`, ... numbered in bind order.
    Postgres,
}

/// The decimal digit character for one digit value.
pub open spec fn spec_digit(d: nat) -> char {
    if d == 0 {
        '0'
    } else if d == 1 {
        '1'
    } else if d == 2 {
        '2'
    } else if d == 3 {
        '3'
    } else if d == 4 {
        '4'
    } else if d == 5 {
        '5'
    } else if d == 6 {
        '6'
    } else if d == 7 {
        '7'
    } else if d == 8 {
        '8'
    } else {
        '9'
    }
}

/// The decimal text of a natural number, most significant digit first.
pub open spec fn spec_decimal(n: nat) -> Seq<char>
    decreases n,
{
    if n < 10 {
        seq![spec_digit(n)]
    } else {
        spec_decimal(n / 10) + seq![spec_digit(n % 10)]
    }
}

/// Appends the decimal digit character for `d`.
fn append_digit(d: usize, out: &mut String)
    requires
        d < 10,
    ensures
        final(out)@ == old(out)@ + seq![spec_digit(d as nat)],
{
    match d {
        0 => {
            out.append("0");
            proof {
                reveal_strlit("0");
                assert(out@ =~= old(out)@ + seq![spec_digit(d as nat)]);
            }
        },
        1 => {
            out.append("1");
            proof {
                reveal_strlit("1");
                assert(out@ =~= old(out)@ + seq![spec_digit(d as nat)]);
            }
        },
        2 => {
            out.append("2");
            proof {
                reveal_strlit("2");
                assert(out@ =~= old(out)@ + seq![spec_digit(d as nat)]);
            }
        },
        3 => {
            out.append("3");
            proof {
                reveal_strlit("3");
                assert(out@ =~= old(out)@ + seq![spec_digit(d as nat)]);
            }
        },
        4 => {
            out.append("4");
            proof {
                reveal_strlit("4");
                assert(out@ =~= old(out)@ + seq![spec_digit(d as nat)]);
            }
        },
        5 => {
            out.append("5");
            proof {
                reveal_strlit("5");
                assert(out@ =~= old(out)@ + seq![spec_digit(d as nat)]);
            }
        },
        6 => {
            out.append("6");
            proof {
                reveal_strlit("6");
                assert(out@ =~= old(out)@ + seq![spec_digit(d as nat)]);
            }
        },
        7 => {
            out.append("7");
            proof {
                reveal_strlit("7");
                assert(out@ =~= old(out)@ + seq![spec_digit(d as nat)]);
            }
        },
        8 => {
            out.append("8");
            proof {
                reveal_strlit("8");
                assert(out@ =~= old(out)@ + seq![spec_digit(d as nat)]);
            }
        },
        _ => {
            out.append("9");
            proof {
                reveal_strlit("9");
                assert(out@ =~= old(out)@ + seq![spec_digit(d as nat)]);
            }
        },
    }
}

/// Appends the decimal text of `n`, most significant digit first.
pub fn append_decimal(n: usize, out: &mut String)
    ensures
        final(out)@ == old(out)@ + spec_decimal(n as nat),
    decreases n,
{
    if n < 10 {
        append_digit(n, out);
    } else {
        append_decimal(n / 10, out);
        append_digit(n % 10, out);
        proof {
            assert(out@ =~= old(out)@ + spec_decimal(n as nat));
        }
    }
}

/// The token that stands for the `n`-th bound parameter (1-based) of a
/// statement in the given dialect.
pub open spec fn spec_placeholder_token(dialect: Dialect, n: nat) -> Seq<char> {
    match dialect {
        Dialect::Postgres => "$"@ + spec_decimal(n),
        _ => "?"@,
    }
}

/// Appends the placeholder token for the `n`-th bound parameter (1-based).
pub fn append_placeholder(dialect: Dialect, n: usize, out: &mut String)
    ensures
        final(out)@ == old(out)@ + spec_placeholder_token(dialect, n as nat),
{
    match dialect {
        Dialect::Postgres => {
            out.append("$");
            append_decimal(n, out);
            proof {
                assert(out@ =~= old(out)@ + spec_placeholder_token(dialect, n as nat));
            }
        },
        _ => {
            out.append("?");
        },
    }
}

} // verus!
