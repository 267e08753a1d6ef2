//! Identity plus current status of one individual.
use vstd::prelude::*;

use vstd::string::StringExecFns;

use crate::status::Status;

verus! {

/// Decimal digits of `n`, most significant first.
pub open spec fn spec_decimal(n: nat) -> Seq<char>
    decreases n,
{
    if n < 10 {
        seq![spec_digit(n)]
    } else {
        spec_decimal(n / 10) + seq![spec_digit(n % 10)]
    }
}

/// The character for one decimal digit.
pub open spec fn spec_digit(n: nat) -> char {
    if n == 0 {
        '0'
    } else if n == 1 {
        '1'
    } else if n == 2 {
        '2'
    } else if n == 3 {
        '3'
    } else if n == 4 {
        '4'
    } else if n == 5 {
        '5'
    } else if n == 6 {
        '6'
    } else if n == 7 {
        '7'
    } else if n == 8 {
        '8'
    } else {
        '9'
    }
}

/// The textual form of a status, the variant name with the day count in
/// parentheses on an infection.
pub open spec fn spec_status_label(s: Status) -> Seq<char> {
    match s {
        Status::Susceptible => "Susceptible"@,
        Status::Infected(d) => "Infected("@ + spec_decimal(d as nat) + ")"@,
        Status::Recovered => "Recovered"@,
        Status::Vaccinated => "Vaccinated"@,
        Status::Dead => "Dead"@,
    }
}

/// The one-individual line that `PersonModel::to_string` produces.
pub open spec fn spec_person_line(p: PersonModel) -> Seq<char> {
    "Person ID: "@ + spec_decimal(p.id as nat) + ", Status: "@ + spec_status_label(p.status)
}

fn append_digit(out: &mut String, d: u32)
    requires
        d < 10,
    ensures
        final(out)@ == old(out)@ + seq![spec_digit(d as nat)],
{
    if d == 0 {
        out.append("0");
        proof {
            reveal_strlit("0");
            assert(out@ =~= old(out)@ + seq![spec_digit(d as nat)]);
        }
    } else if d == 1 {
        out.append("1");
        proof {
            reveal_strlit("1");
            assert(out@ =~= old(out)@ + seq![spec_digit(d as nat)]);
        }
    } else if d == 2 {
        out.append("2");
        proof {
            reveal_strlit("2");
            assert(out@ =~= old(out)@ + seq![spec_digit(d as nat)]);
        }
    } else if d == 3 {
        out.append("3");
        proof {
            reveal_strlit("3");
            assert(out@ =~= old(out)@ + seq![spec_digit(d as nat)]);
        }
    } else if d == 4 {
        out.append("4");
        proof {
            reveal_strlit("4");
            assert(out@ =~= old(out)@ + seq![spec_digit(d as nat)]);
        }
    } else if d == 5 {
        out.append("5");
        proof {
            reveal_strlit("5");
            assert(out@ =~= old(out)@ + seq![spec_digit(d as nat)]);
        }
    } else if d == 6 {
        out.append("6");
        proof {
            reveal_strlit("6");
            assert(out@ =~= old(out)@ + seq![spec_digit(d as nat)]);
        }
    } else if d == 7 {
        out.append("7");
        proof {
            reveal_strlit("7");
            assert(out@ =~= old(out)@ + seq![spec_digit(d as nat)]);
        }
    } else if d == 8 {
        out.append("8");
        proof {
            reveal_strlit("8");
            assert(out@ =~= old(out)@ + seq![spec_digit(d as nat)]);
        }
    } else {
        out.append("9");
        proof {
            reveal_strlit("9");
            assert(out@ =~= old(out)@ + seq![spec_digit(d as nat)]);
        }
    }
}

fn append_decimal(out: &mut String, n: u32)
    ensures
        final(out)@ == old(out)@ + spec_decimal(n as nat),
    decreases n,
{
    if n < 10 {
        append_digit(out, n);
    } else {
        append_decimal(out, n / 10);
        append_digit(out, n % 10);
        proof {
            assert(out@ =~= old(out)@ + spec_decimal(n as nat));
        }
    }
}

fn append_status_label(out: &mut String, s: Status)
    ensures
        final(out)@ == old(out)@ + spec_status_label(s),
{
    match s {
        Status::Susceptible => out.append("Susceptible"),
        Status::Infected(d) => {
            out.append("Infected(");
            append_decimal(out, d);
            out.append(")");
            proof {
                assert(out@ =~= old(out)@ + spec_status_label(s));
            }
        },
        Status::Recovered => out.append("Recovered"),
        Status::Vaccinated => out.append("Vaccinated"),
        Status::Dead => out.append("Dead"),
    }
}

/// One individual: a unique id, assigned once at population construction
/// and never changed, and the current status, rewritten once per day.
#[derive(Clone, Copy, Debug, PartialEq, Eq, Structural)]
pub struct PersonModel {
    pub id: u32,
    pub status: Status,
}

impl PersonModel {
    /// A new person starts `Susceptible`.
    pub fn new(id: u32) -> (r: PersonModel)
        ensures
            r.id == id,
            r.status == Status::Susceptible,
    {
        PersonModel { id, status: Status::Susceptible }
    }

    pub fn get_status(&self) -> (r: Status)
        ensures
            r == self.status,
    {
        self.status
    }

    /// The individual's one-line textual form.
    pub fn to_string(&self) -> (r: String)
        ensures
            r@ == spec_person_line(*self),
    {
        let mut r = String::new();
        r.append("Person ID: ");
        append_decimal(&mut r, self.id);
        r.append(", Status: ");
        append_status_label(&mut r, self.status);
        proof {
            assert(r@ =~= spec_person_line(*self));
        }
        r
    }
}

} // verus!
