//! Text layout: a framed outline around a line of text, a bracketed list, and
//! decimal numerals.
use vstd::prelude::*;
use vstd::string::*;

verus! {

/// `piece` written `n` times in a row.
pub open spec fn repeated(piece: Seq<char>, n: nat) -> Seq<char>
    decreases n,
{
    if n == 0 {
        Seq::empty()
    } else {
        repeated(piece, (n - 1) as nat) + piece
    }
}

/// `piece` written `n` times in a row.
fn repeat_str(piece: &str, n: usize) -> (r: String)
    ensures
        r@ == repeated(piece@, n as nat),
{
    let mut r = String::new();
    let mut i: usize = 0;
    while i < n
        invariant
            i <= n,
            r@ == repeated(piece@, i as nat),
        decreases n - i,
    {
        r.append(piece);
        i = i + 1;
    }
    r
}

/// The five lines that frame a text of `width` bytes: a border of stars, a
/// blank line between stars, the text between `"* "` and `" *"`, again a blank
/// line and a border.
pub open spec fn outline_lines(text: Seq<char>, width: nat) -> Seq<Seq<char>> {
    let border = repeated("*"@, width + 4);
    let blank = "*"@ + repeated(" "@, width + 2) + "*"@;
    seq![border, blank, "* "@ + text + " *"@, blank, border]
}

/// Lays out `text` in a frame of stars, one line per entry; the frame's width
/// goes by the text's length in bytes.
pub fn outline(text: &str) -> (lines: Vec<String>)
    requires
        text.spec_bytes().len() + 4 <= usize::MAX,
    ensures
        lines@.len() == 5,
        forall|i: int| 0 <= i < 5 ==> #[trigger] lines@[i]@ == outline_lines(text@, text.spec_bytes().len())[i],
{
    let len = text.len();
    let border = repeat_str("*", len + 4);
    let mut blank = String::from_str("*");
    blank.append(repeat_str(" ", len + 2).as_str());
    blank.append("*");
    let mut middle = String::from_str("* ");
    middle.append(text);
    middle.append(" *");
    vec![border.clone(), blank.clone(), middle, blank, border]
}

/// `items` one after the other with `sep` between each two.
pub open spec fn joined(items: Seq<Seq<char>>, sep: Seq<char>) -> Seq<char>
    decreases items.len(),
{
    if items.len() == 0 {
        Seq::empty()
    } else if items.len() == 1 {
        items[0]
    } else {
        joined(items.drop_last(), sep) + sep + items.last()
    }
}

/// A list of strings, written as `[a, b, c]`.
pub struct Wrapper(pub Vec<String>);

impl Wrapper {
    /// The strings of the list between brackets, separated by `", "`.
    pub fn to_string(&self) -> (r: String)
        ensures
            r@ == "["@ + joined(self.0@.map_values(|s: String| s@), ", "@) + "]"@,
    {
        let ghost items = self.0@.map_values(|s: String| s@);
        let mut body = String::new();
        let mut i: usize = 0;
        while i < self.0.len()
            invariant
                i <= self.0@.len(),
                items == self.0@.map_values(|s: String| s@),
                body@ == joined(items.take(i as int), ", "@),
            decreases self.0@.len() - i,
        {
            if i > 0 {
                body.append(", ");
            }
            body.append(self.0[i].as_str());
            assert(items.take(i + 1).drop_last() =~= items.take(i as int));
            i = i + 1;
        }
        assert(items.take(i as int) =~= items);
        let mut r = String::from_str("[");
        r.append(body.as_str());
        r.append("]");
        r
    }
}

/// The digit character for `d`, below ten.
pub open spec fn digit_char(d: nat) -> char {
    seq!['0', '1', '2', '3', '4', '5', '6', '7', '8', '9'][d as int]
}

/// The decimal digits of `n`, with no leading zero (`0` is written `"0"`).
pub open spec fn digits(n: nat) -> Seq<char>
    decreases n,
{
    if n < 10 {
        seq![digit_char(n)]
    } else {
        digits(n / 10) + seq![digit_char(n % 10)]
    }
}

/// The decimal numeral of `n`, with a leading `-` when it is negative.
pub open spec fn decimal(n: int) -> Seq<char> {
    if n < 0 {
        seq!['-'] + digits((-n) as nat)
    } else {
        digits(n as nat)
    }
}

/// Relies on `i32::to_string` (through `Display` for `i32`): the decimal
/// numeral, with a leading minus sign when negative.
#[verifier::external_body]
pub(crate) fn i32_text(n: i32) -> (r: String)
    ensures
        r@ == decimal(n as int),
{
    n.to_string()
}

} // verus!
