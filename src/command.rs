use vstd::prelude::*;

verus! {

/// The characters with the Unicode White_Space property.
pub open spec fn white_space(c: char) -> bool {
    let u = c as u32;
    ||| 0x9 <= u <= 0xD
    ||| u == 0x20
    ||| u == 0x85
    ||| u == 0xA0
    ||| u == 0x1680
    ||| 0x2000 <= u <= 0x200A
    ||| u == 0x2028
    ||| u == 0x2029
    ||| u == 0x202F
    ||| u == 0x205F
    ||| u == 0x3000
}

/// Relies on `char::is_whitespace`: true exactly for the characters with
/// the Unicode White_Space property.
#[verifier::external_body]
fn is_white_space(c: char) -> (r: bool)
    ensures
        r == white_space(c),
{
    c.is_whitespace()
}

/// Whether `s`, with the white space at both ends trimmed, is the single
/// letter `q`: one character of `s` is `q` and every other is white space.
pub open spec fn is_stop_line(s: Seq<char>) -> bool {
    exists|i: int|
        0 <= i < s.len() && s[i] == 'q' && forall|j: int|
            0 <= j < s.len() && j != i ==> #[trigger] white_space(s[j])
}

/// Whether a line typed by the operator is the stop command: `q`, with any
/// white space around it. Any other line is ignored by the caller.
pub fn is_stop_command(line: &str) -> (r: bool)
    ensures
        r == is_stop_line(line@),
{
    let n = line.unicode_len();
    let ghost s = line@;
    let mut found: bool = false;
    let ghost mut at: int = 0;
    let mut i: usize = 0;
    assert(!white_space('q'));
    while i < n
        invariant
            n == s.len(),
            s == line@,
            i <= n,
            !found ==> forall|j: int| 0 <= j < i ==> #[trigger] white_space(s[j]),
            found ==> 0 <= at < i && s[at] == 'q' && forall|j: int|
                0 <= j < i && j != at ==> #[trigger] white_space(s[j]),
        decreases n - i,
    {
        let c = line.get_char(i);
        if !is_white_space(c) {
            if c == 'q' && !found {
                found = true;
                proof {
                    at = i as int;
                }
            } else {
                assert(!is_stop_line(s)) by {
                    if is_stop_line(s) {
                        let m = choose|m: int|
                            0 <= m < s.len() && s[m] == 'q' && forall|j: int|
                                0 <= j < s.len() && j != m ==> #[trigger] white_space(s[j]);
                        if m != i {
                            assert(white_space(s[i as int]));
                        } else if found {
                            assert(white_space(s[at]));
                        }
                    }
                }
                return false;
            }
        }
        i = i + 1;
    }
    if !found {
        assert(!is_stop_line(s)) by {
            if is_stop_line(s) {
                let m = choose|m: int|
                    0 <= m < s.len() && s[m] == 'q' && forall|j: int|
                        0 <= j < s.len() && j != m ==> #[trigger] white_space(s[j]);
                assert(white_space(s[m]));
            }
        }
    }
    found
}

} // verus!
