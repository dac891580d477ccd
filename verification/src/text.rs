use vstd::prelude::*;

verus! {

/// The character that stands for one decimal digit.
pub open spec fn digit_char(d: int) -> char {
    if d == 0 {
        '0'
    } else if d == 1 {
        '1'
    } else if d == 2 {
        '2'
    } else if d == 3 {
        '3'
    } else if d == 4 {
        '4'
    } else if d == 5 {
        '5'
    } else if d == 6 {
        '6'
    } else if d == 7 {
        '7'
    } else if d == 8 {
        '8'
    } else {
        '9'
    }
}

/// The decimal digits of a natural number, most significant first, without leading zeros.
pub open spec fn digits(n: nat) -> Seq<char>
    decreases n,
{
    if n < 10 {
        seq![digit_char(n as int)]
    } else {
        digits(n / 10).push(digit_char((n % 10) as int))
    }
}

/// The decimal notation of an integer: a minus sign for a negative one, then its digits.
pub open spec fn decimal(n: int) -> Seq<char> {
    if n < 0 {
        seq!['-'] + digits((-n) as nat)
    } else {
        digits(n as nat)
    }
}

/// The word that stands for a truth value in a query string.
pub open spec fn truth_word(b: bool) -> Seq<char> {
    if b {
        "true"@
    } else {
        "false"@
    }
}

fn digit_text(d: u64) -> (r: &'static str)
    requires
        d < 10,
    ensures
        r@ == seq![digit_char(d as int)],
{
    proof {
        reveal_strlit("0");
        reveal_strlit("1");
        reveal_strlit("2");
        reveal_strlit("3");
        reveal_strlit("4");
        reveal_strlit("5");
        reveal_strlit("6");
        reveal_strlit("7");
        reveal_strlit("8");
        reveal_strlit("9");
    }
    let r = if d == 0 {
        "0"
    } else if d == 1 {
        "1"
    } else if d == 2 {
        "2"
    } else if d == 3 {
        "3"
    } else if d == 4 {
        "4"
    } else if d == 5 {
        "5"
    } else if d == 6 {
        "6"
    } else if d == 7 {
        "7"
    } else if d == 8 {
        "8"
    } else {
        "9"
    };
    assert(r@ =~= seq![digit_char(d as int)]);
    r
}

/// Writes a natural number in decimal.
fn digits_text(n: u64) -> (r: String)
    ensures
        r@ == digits(n as nat),
{
    let mut rest: u64 = n;
    let mut tail: String = String::new();
    while rest >= 10
        invariant
            digits(n as nat) == digits(rest as nat) + tail@,
        decreases rest,
    {
        let low: u64 = rest % 10;
        let ghost before = tail@;
        tail = String::from_str(digit_text(low)).concat(tail.as_str());
        proof {
            assert(digits(rest as nat) == digits((rest / 10) as nat).push(digit_char(low as int)));
            assert(digits((rest / 10) as nat).push(digit_char(low as int)) + before
                =~= digits((rest / 10) as nat) + (seq![digit_char(low as int)] + before));
        }
        rest = rest / 10;
    }
    String::from_str(digit_text(rest)).concat(tail.as_str())
}

/// Writes an integer in decimal, as `to_string` does for `i32`.
pub fn decimal_text(n: i32) -> (r: String)
    ensures
        r@ == decimal(n as int),
{
    if n < 0 {
        let magnitude: u64 = (-(n as i64)) as u64;
        let body = digits_text(magnitude);
        proof {
            reveal_strlit("-");
            assert("-"@ =~= seq!['-']);
        }
        String::from_str("-").concat(body.as_str())
    } else {
        digits_text(n as u64)
    }
}

/// Tells whether a string holds exactly the given text.
pub fn same_text(a: &String, b: &str) -> (r: bool)
    ensures
        r == (a@ == b@),
{
    let other = String::from_str(b);
    *a == other
}

/// Writes a truth value as `true` or `false`.
pub fn truth_text(b: bool) -> (r: String)
    ensures
        r@ == truth_word(b),
{
    if b {
        String::from_str("true")
    } else {
        String::from_str("false")
    }
}

/// The length of a path once the separators and the `.` components at its end are
/// dropped.
pub open spec fn trimmed_len(path: Seq<char>) -> nat
    decreases path.len(),
{
    if path.len() == 0 {
        0
    } else if path.last() == '/' {
        trimmed_len(path.drop_last())
    } else if path.last() == '.' && (path.len() == 1 || path[path.len() - 2] == '/') {
        trimmed_len(path.drop_last())
    } else {
        path.len()
    }
}

/// Where the component that ends at `end` starts: behind the last separator before it.
pub open spec fn component_start(path: Seq<char>, end: nat) -> nat
    decreases end,
{
    if end == 0 {
        0
    } else if path[end - 1] == '/' {
        end
    } else {
        component_start(path, (end - 1) as nat)
    }
}

/// The file name of a path whose components are parted by `/`: its last component,
/// where separators and `.` components at the end do not count. There is none where
/// nothing is left, or where that component is `..`.
pub open spec fn file_name(path: Seq<char>) -> Option<Seq<char>> {
    let end = trimmed_len(path);
    let name = path.subrange(component_start(path, end) as int, end as int);
    if end == 0 || name == seq!['.', '.'] {
        None
    } else {
        Some(name)
    }
}

/// Finds the file name of a path.
pub fn file_name_of(path: &str) -> (r: Option<String>)
    ensures
        match r {
            Some(name) => file_name(path@) == Some(name@),
            None => file_name(path@) is None,
        },
{
    let n: usize = path.unicode_len();
    let mut end: usize = n;
    let mut trimming: bool = true;
    assert(path@.take(n as int) =~= path@);
    while trimming && end > 0
        invariant
            end <= n,
            n == path@.len(),
            trimmed_len(path@) == trimmed_len(path@.take(end as int)),
            !trimming ==> trimmed_len(path@.take(end as int)) == end,
        decreases end + (if trimming { 1nat } else { 0nat }),
    {
        let ghost head = path@.take(end as int);
        assert(head.drop_last() =~= path@.take(end - 1));
        assert(head.last() == path@[end - 1]);
        let last = path.get_char(end - 1);
        if last == '/' {
            end -= 1;
        } else if last == '.' {
            if end == 1 {
                end -= 1;
            } else {
                assert(head[head.len() - 2] == path@[end - 2]);
                if path.get_char(end - 2) == '/' {
                    end -= 1;
                } else {
                    trimming = false;
                }
            }
        } else {
            trimming = false;
        }
    }
    if end == 0 {
        return None;
    }
    let mut start: usize = end;
    while start > 0 && path.get_char(start - 1) != '/'
        invariant
            start <= end <= n,
            n == path@.len(),
            component_start(path@, end as nat) == component_start(path@, start as nat),
        decreases start,
    {
        start -= 1;
    }
    let name = String::from_str(path.substring_char(start, end));
    proof {
        reveal_strlit("..");
        assert(".."@ =~= seq!['.', '.']);
    }
    if same_text(&name, "..") {
        None
    } else {
        Some(name)
    }
}

} // verus!
