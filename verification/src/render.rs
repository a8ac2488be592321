//! Verified diagnostic formatting: decimal rendering of the supported
//! numeric types and bracketed list rendering for the supported
//! containers. The boundary's display operation hands its output's
//! ownership to the caller.

use vstd::prelude::*;
use vstd::string::StringExecFns;

verus! {

/// The decimal digit character for a value below ten.
pub open spec fn digit_char(n: nat) -> char {
    if n == 0 {
        '0'
    } else if n == 1 {
        '1'
    } else if n == 2 {
        '2'
    } else if n == 3 {
        '3'
    } else if n == 4 {
        '4'
    } else if n == 5 {
        '5'
    } else if n == 6 {
        '6'
    } else if n == 7 {
        '7'
    } else if n == 8 {
        '8'
    } else {
        '9'
    }
}

/// The decimal rendering of a natural number, most significant digit
/// first, with no leading zeros except for zero itself.
pub open spec fn dec_nat(n: nat) -> Seq<char>
    decreases n,
{
    if n < 10 {
        seq![digit_char(n)]
    } else {
        dec_nat(n / 10) + seq![digit_char(n % 10)]
    }
}

/// The decimal rendering of an integer: a leading minus sign for a
/// negative value, then the decimal rendering of its magnitude.
pub open spec fn dec_int(i: int) -> Seq<char> {
    if i >= 0 {
        dec_nat(i as nat)
    } else {
        seq!['-'] + dec_nat((-i) as nat)
    }
}

fn digit_str(d: u64) -> (s: String)
    requires
        d < 10,
    ensures
        s@ == seq![digit_char(d as nat)],
{
    let c: &str = if d == 0 {
        "0"
    } else if d == 1 {
        "1"
    } else if d == 2 {
        "2"
    } else if d == 3 {
        "3"
    } else if d == 4 {
        "4"
    } else if d == 5 {
        "5"
    } else if d == 6 {
        "6"
    } else if d == 7 {
        "7"
    } else if d == 8 {
        "8"
    } else {
        "9"
    };
    proof {
        reveal_strlit("0");
        reveal_strlit("1");
        reveal_strlit("2");
        reveal_strlit("3");
        reveal_strlit("4");
        reveal_strlit("5");
        reveal_strlit("6");
        reveal_strlit("7");
        reveal_strlit("8");
        reveal_strlit("9");
        assert(c@ =~= seq![digit_char(d as nat)]);
    }
    String::from_str(c)
}

/// Renders an unsigned value in decimal; callers own the returned string.
pub fn u64_dec(n: u64) -> (s: String)
    ensures
        s@ == dec_nat(n as nat),
    decreases n,
{
    if n < 10 {
        digit_str(n)
    } else {
        let q = n / 10;
        let r = n % 10;
        let mut s = u64_dec(q);
        let d = digit_str(r);
        s.append(d.as_str());
        s
    }
}

/// Renders a signed value in decimal; callers own the returned string.
pub fn i64_dec(x: i64) -> (s: String)
    ensures
        s@ == dec_int(x as int),
{
    if x >= 0 {
        u64_dec(x as u64)
    } else {
        let mag: u64 = if x == i64::MIN {
            9223372036854775808u64
        } else {
            (-x) as u64
        };
        let mut s = String::from_str("-");
        let d = u64_dec(mag);
        s.append(d.as_str());
        proof {
            reveal_strlit("-");
            assert("-"@ =~= seq!['-']);
        }
        s
    }
}

/// A value of a supported type together with its diagnostic rendering.
pub trait Render {
    /// The diagnostic rendering of the value.
    spec fn rspec(&self) -> Seq<char>;

    /// Renders the value; callers own the returned string.
    fn render(&self) -> (s: String)
        ensures
            s@ == self.rspec(),
    ;
}

impl Render for bool {
    open spec fn rspec(&self) -> Seq<char> {
        if *self {
            "true"@
        } else {
            "false"@
        }
    }

    fn render(&self) -> (s: String)
        ensures
            s@ == self.rspec(),
    {
        if *self {
            String::from_str("true")
        } else {
            String::from_str("false")
        }
    }
}

impl Render for u8 {
    open spec fn rspec(&self) -> Seq<char> {
        dec_nat(*self as nat)
    }

    fn render(&self) -> (s: String)
        ensures
            s@ == self.rspec(),
    {
        u64_dec(*self as u64)
    }
}

impl Render for u32 {
    open spec fn rspec(&self) -> Seq<char> {
        dec_nat(*self as nat)
    }

    fn render(&self) -> (s: String)
        ensures
            s@ == self.rspec(),
    {
        u64_dec(*self as u64)
    }
}

impl Render for u64 {
    open spec fn rspec(&self) -> Seq<char> {
        dec_nat(*self as nat)
    }

    fn render(&self) -> (s: String)
        ensures
            s@ == self.rspec(),
    {
        u64_dec(*self)
    }
}

impl Render for i32 {
    open spec fn rspec(&self) -> Seq<char> {
        dec_int(*self as int)
    }

    fn render(&self) -> (s: String)
        ensures
            s@ == self.rspec(),
    {
        i64_dec(*self as i64)
    }
}

impl Render for i64 {
    open spec fn rspec(&self) -> Seq<char> {
        dec_int(*self as int)
    }

    fn render(&self) -> (s: String)
        ensures
            s@ == self.rspec(),
    {
        i64_dec(*self)
    }
}

impl Render for String {
    open spec fn rspec(&self) -> Seq<char> {
        seq!['"'] + self@ + seq!['"']
    }

    fn render(&self) -> (s: String)
        ensures
            s@ == self.rspec(),
    {
        let mut s = String::from_str("\"");
        s.append(self.as_str());
        s.append("\"");
        proof {
            reveal_strlit("\"");
            assert("\""@ =~= seq!['"']);
        }
        s
    }
}

/// The comma-separated joining of a sequence of renderings.
pub open spec fn spec_join_comma(ss: Seq<Seq<char>>) -> Seq<char>
    decreases ss.len(),
{
    if ss.len() == 0 {
        Seq::empty()
    } else if ss.len() == 1 {
        ss[0]
    } else {
        spec_join_comma(ss.drop_last()) + ", "@ + ss.last()
    }
}

/// The diagnostic renderings of a sequence of values, element by element.
pub open spec fn rspecs<T: Render>(s: Seq<T>) -> Seq<Seq<char>> {
    s.map_values(|x: T| x.rspec())
}

/// The bracketed diagnostic rendering of a sequence of values.
pub open spec fn spec_list<T: Render>(s: Seq<T>) -> Seq<char> {
    "["@ + spec_join_comma(rspecs(s)) + "]"@
}

/// Renders a supported container value as a bracketed, comma-separated
/// list; callers own the returned string.
pub fn render_list<T: Render>(v: &Vec<T>) -> (s: String)
    ensures
        s@ == spec_list(v@),
{
    let mut s = String::from_str("[");
    proof {
        assert(rspecs(v@).take(0) =~= Seq::<Seq<char>>::empty());
        assert(s@ =~= "["@ + spec_join_comma(rspecs(v@).take(0)));
    }
    let mut i: usize = 0;
    while i < v.len()
        invariant
            i <= v.len(),
            s@ == "["@ + spec_join_comma(rspecs(v@).take(i as int)),
        decreases v.len() - i,
    {
        if i > 0 {
            s.append(", ");
        }
        let e = v[i].render();
        s.append(e.as_str());
        proof {
            let parts = rspecs(v@);
            assert(parts[i as int] == v@[i as int].rspec());
            assert(parts.take(i as int + 1).drop_last() =~= parts.take(i as int));
            assert(parts.take(i as int + 1).last() == parts[i as int]);
            if i == 0 {
                assert(spec_join_comma(parts.take(1)) == parts.take(1)[0]);
                assert(parts.take(1)[0] == parts[0]);
                assert(s@ =~= "["@ + spec_join_comma(parts.take(i as int + 1)));
            } else {
                assert(spec_join_comma(parts.take(i as int + 1)) == spec_join_comma(
                    parts.take(i as int),
                ) + ", "@ + parts[i as int]);
                assert(s@ =~= "["@ + spec_join_comma(parts.take(i as int + 1)));
            }
        }
        i = i + 1;
    }
    s.append("]");
    proof {
        assert(rspecs(v@).take(v@.len() as int) =~= rspecs(v@));
        assert(s@ =~= spec_list(v@));
    }
    s
}

} // verus!
