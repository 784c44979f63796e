use vstd::prelude::*;

verus! {

/// The direction in which text flows.
#[derive(Copy, Clone, Debug, PartialEq, Eq, Structural)]
pub enum Direction {
    /// Left to right.
    Ltr,
    /// Right to left.
    Rtl,
    /// Top to bottom.
    Ttb,
    /// Bottom to top.
    Btt,
}

/// The direction that a text naming one starts with `c`, compared without
/// regard to ASCII case; `None` for any other first character.
pub open spec fn direction_of_initial(c: char) -> Option<Direction> {
    if c == 'l' || c == 'L' {
        Some(Direction::Ltr)
    } else if c == 'r' || c == 'R' {
        Some(Direction::Rtl)
    } else if c == 't' || c == 'T' {
        Some(Direction::Ttb)
    } else if c == 'b' || c == 'B' {
        Some(Direction::Btt)
    } else {
        None
    }
}

/// What parsing the text `s` gives: the direction its first character names,
/// or an error for an empty text or an unrecognized first character.
pub open spec fn parsed_direction(s: Seq<char>) -> Result<Direction, ()> {
    if s.len() == 0 {
        Err(())
    } else {
        match direction_of_initial(s[0]) {
            Some(d) => Ok(d),
            None => Err(()),
        }
    }
}

/// Whether `a` and `b` are the same character up to ASCII letter case.
pub open spec fn same_ignoring_ascii_case(a: char, b: char) -> bool {
    ||| a == b
    ||| 'a' <= a <= 'z' && b as int + 0x20 == a as int
    ||| 'a' <= b <= 'z' && a as int + 0x20 == b as int
}

impl Direction {
    /// The canonical three-letter lowercase label of the direction.
    pub open spec fn label(self) -> Seq<char> {
        match self {
            Direction::Ltr => seq!['l', 't', 'r'],
            Direction::Rtl => seq!['r', 't', 'l'],
            Direction::Ttb => seq!['t', 't', 'b'],
            Direction::Btt => seq!['b', 't', 't'],
        }
    }

    /// Whether text flows along the horizontal axis.
    pub open spec fn horizontal(self) -> bool {
        self is Ltr || self is Rtl
    }

    /// Whether text flows along the vertical axis.
    pub open spec fn vertical(self) -> bool {
        self is Ttb || self is Btt
    }

    /// Whether text advances toward increasing coordinates.
    pub open spec fn forward(self) -> bool {
        self is Ltr || self is Ttb
    }

    /// Whether text advances toward decreasing coordinates.
    pub open spec fn backward(self) -> bool {
        self is Rtl || self is Btt
    }

    /// The direction of opposite flow on the same axis.
    pub open spec fn reversed(self) -> Direction {
        match self {
            Direction::Ltr => Direction::Rtl,
            Direction::Rtl => Direction::Ltr,
            Direction::Ttb => Direction::Btt,
            Direction::Btt => Direction::Ttb,
        }
    }

    /// Parses a direction from the first character of `s`, without regard to
    /// case: 'l' left to right, 'r' right to left, 't' top to bottom, 'b'
    /// bottom to top. The rest of `s` is not looked at, so "right-to-left"
    /// parses as well as "rtl". An empty text or any other first character is
    /// an error.
    pub fn from_string(s: &str) -> (r: Result<Direction, ()>)
        ensures
            r == parsed_direction(s@),
    {
        if s.is_empty() {
            return Err(());
        }
        let c = s.get_char(0);
        if c == 'l' || c == 'L' {
            Ok(Direction::Ltr)
        } else if c == 'r' || c == 'R' {
            Ok(Direction::Rtl)
        } else if c == 't' || c == 'T' {
            Ok(Direction::Ttb)
        } else if c == 'b' || c == 'B' {
            Ok(Direction::Btt)
        } else {
            Err(())
        }
    }

    /// The canonical label of the direction: "ltr", "rtl", "ttb" or "btt".
    pub fn to_string(self) -> (r: &'static str)
        ensures
            r@ == self.label(),
    {
        match self {
            Direction::Ltr => {
                let r = "ltr";
                proof {
                    reveal_strlit("ltr");
                }
                assert(r@ =~= self.label());
                r
            },
            Direction::Rtl => {
                let r = "rtl";
                proof {
                    reveal_strlit("rtl");
                }
                assert(r@ =~= self.label());
                r
            },
            Direction::Ttb => {
                let r = "ttb";
                proof {
                    reveal_strlit("ttb");
                }
                assert(r@ =~= self.label());
                r
            },
            Direction::Btt => {
                let r = "btt";
                proof {
                    reveal_strlit("btt");
                }
                assert(r@ =~= self.label());
                r
            },
        }
    }

    /// Whether text in this direction flows horizontally.
    pub fn is_horizontal(self) -> (r: bool)
        ensures
            r == self.horizontal(),
    {
        match self {
            Direction::Ltr | Direction::Rtl => true,
            Direction::Ttb | Direction::Btt => false,
        }
    }

    /// Whether text in this direction flows vertically.
    pub fn is_vertical(self) -> (r: bool)
        ensures
            r == self.vertical(),
    {
        !self.is_horizontal()
    }

    /// Whether text in this direction advances toward increasing coordinates.
    pub fn is_forward(self) -> (r: bool)
        ensures
            r == self.forward(),
    {
        match self {
            Direction::Ltr | Direction::Ttb => true,
            Direction::Rtl | Direction::Btt => false,
        }
    }

    /// Whether text in this direction advances toward decreasing coordinates.
    pub fn is_backward(self) -> (r: bool)
        ensures
            r == self.backward(),
    {
        !self.is_forward()
    }

    /// The direction of opposite flow on the same axis.
    pub fn reverse(self) -> (r: Direction)
        ensures
            r == self.reversed(),
    {
        match self {
            Direction::Ltr => Direction::Rtl,
            Direction::Rtl => Direction::Ltr,
            Direction::Ttb => Direction::Btt,
            Direction::Btt => Direction::Ttb,
        }
    }
}

/// Parsing looks at the first character only: two texts that start with the
/// same character parse alike.
pub proof fn lemma_parse_reads_first_char_only(s: Seq<char>, t: Seq<char>)
    requires
        s.len() > 0,
        t.len() > 0,
        s[0] == t[0],
    ensures
        parsed_direction(s) == parsed_direction(t),
{
}

/// Parsing ignores ASCII case: two texts whose first characters differ in
/// case only parse alike.
pub proof fn lemma_parse_ignores_case(s: Seq<char>, t: Seq<char>)
    requires
        s.len() > 0,
        t.len() > 0,
        same_ignoring_ascii_case(s[0], t[0]),
    ensures
        parsed_direction(s) == parsed_direction(t),
{
}

/// Parsing the canonical label of a direction gives that direction back.
pub proof fn lemma_parse_label(d: Direction)
    ensures
        parsed_direction(d.label()) == Ok::<Direction, ()>(d),
{
}

/// Every direction lies on exactly one axis and has exactly one sense.
pub proof fn lemma_axis_and_sense_exclusive(d: Direction)
    ensures
        d.horizontal() != d.vertical(),
        d.forward() != d.backward(),
{
}

/// Reversing twice gives the direction back, and reversing once never does.
pub proof fn lemma_reverse_involution(d: Direction)
    ensures
        d.reversed().reversed() == d,
        d.reversed() != d,
{
}

} // verus!
