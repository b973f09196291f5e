use vstd::prelude::*;

verus! {

/// The paper size of a printed logbook.
#[derive(Debug, Clone, Copy, PartialEq, Eq, Structural)]
pub enum PageSize {
    A4,
    A5,
}

impl PageSize {
    /// The paper name Typst uses for the size.
    pub open spec fn spec_typst(&self) -> Seq<char> {
        match self {
            PageSize::A4 => seq!['a', '4'],
            PageSize::A5 => seq!['a', '5'],
        }
    }

    /// The paper name Typst uses for the size.
    pub fn as_typst(&self) -> (r: &'static str)
        ensures
            r@ == self.spec_typst(),
    {
        proof {
            reveal_strlit("a4");
            reveal_strlit("a5");
        }
        match self {
            PageSize::A4 => "a4",
            PageSize::A5 => "a5",
        }
    }

    /// The size a form asks for: `a5` is A5, anything else A4.
    pub fn from_form(value: &str) -> (r: PageSize)
        ensures
            r == (if value@ == seq!['a', '5'] {
                PageSize::A5
            } else {
                PageSize::A4
            }),
    {
        proof {
            reveal_strlit("a5");
        }
        let a5 = crate::text::owned("a5");
        assert(a5@ =~= seq!['a', '5']);
        let given = crate::text::owned(value);
        if given.eq(&a5) {
            PageSize::A5
        } else {
            PageSize::A4
        }
    }
}

/// A location as the logbook prints it.
pub struct LogbookLocation {
    pub address: String,
    pub maidenhead: String,
    pub latlon: String,
}

/// How many log pages to print: the number asked for, 10 when none is, and
/// never fewer than 1 nor more than 100.
pub fn log_page_count(requested: Option<u32>) -> (r: u32)
    ensures
        r == match requested {
            Some(n) => if n < 1 {
                1
            } else if n > 100 {
                100
            } else {
                n
            },
            None => 10,
        },
        1 <= r <= 100,
{
    let n = match requested {
        Some(n) => n,
        None => 10,
    };
    let at_least_one = if n < 1 { 1 } else { n };
    if at_least_one > 100 {
        100
    } else {
        at_least_one
    }
}

} // verus!
