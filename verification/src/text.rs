//! Numbers in text, and the texts that the node shows.
use vstd::prelude::*;
use vstd::string::{StrSliceExecFns, StringExecFns};

verus! {

/// The decimal digit of a number below ten.
pub open spec fn digit(d: nat) -> char {
    if d == 0 {
        '0'
    } else if d == 1 {
        '1'
    } else if d == 2 {
        '2'
    } else if d == 3 {
        '3'
    } else if d == 4 {
        '4'
    } else if d == 5 {
        '5'
    } else if d == 6 {
        '6'
    } else if d == 7 {
        '7'
    } else if d == 8 {
        '8'
    } else {
        '9'
    }
}

/// A number in decimal digits, without leading zeros.
pub open spec fn decimal(n: nat) -> Seq<char>
    decreases n,
{
    if n < 10 {
        seq![digit(n)]
    } else {
        decimal(n / 10).push(digit(n % 10))
    }
}

fn digit_text(d: u32) -> (text: &'static str)
    requires
        d < 10,
    ensures
        text@ == seq![digit(d as nat)],
{
    proof {
        reveal_strlit("0");
        reveal_strlit("1");
        reveal_strlit("2");
        reveal_strlit("3");
        reveal_strlit("4");
        reveal_strlit("5");
        reveal_strlit("6");
        reveal_strlit("7");
        reveal_strlit("8");
        reveal_strlit("9");
    }
    let text = match d {
        0 => "0",
        1 => "1",
        2 => "2",
        3 => "3",
        4 => "4",
        5 => "5",
        6 => "6",
        7 => "7",
        8 => "8",
        _ => "9",
    };
    assert(text@ =~= seq![digit(d as nat)]);
    text
}

/// A number in decimal digits.
pub fn decimal_text(n: u32) -> (text: String)
    ensures
        text@ == decimal(n as nat),
    decreases n,
{
    if n < 10 {
        digit_text(n).to_owned()
    } else {
        let mut text = decimal_text(n / 10);
        text.append(digit_text(n % 10));
        assert(text@ =~= decimal(n as nat));
        text
    }
}

/// The value of a decimal digit.
pub open spec fn digit_value(c: char) -> Option<nat> {
    if '0' <= c <= '9' {
        Some((c as int - '0' as int) as nat)
    } else {
        None
    }
}

/// The number that a sequence of decimal digits stands for; `None` where it holds
/// another character.
pub open spec fn number(text: Seq<char>) -> Option<nat>
    decreases text.len(),
{
    if text.len() == 0 {
        Some(0)
    } else {
        match (number(text.drop_last()), digit_value(text.last())) {
            (Some(front), Some(last)) => Some(10 * front + last),
            _ => None,
        }
    }
}

/// The number that a text stands for: decimal digits, with an optional plus sign
/// before them, and within 32 bits.
pub open spec fn parsed(text: Seq<char>) -> Option<u32> {
    let digits = if text.len() > 0 && text[0] == '+' {
        text.drop_first()
    } else {
        text
    };
    match number(digits) {
        Some(n) => if digits.len() > 0 && n <= u32::MAX {
            Some(n as u32)
        } else {
            None
        },
        None => None,
    }
}

proof fn number_grows(text: Seq<char>, k: int)
    requires
        0 <= k <= text.len(),
        number(text) is Some,
    ensures
        number(text.take(k)) is Some,
        number(text.take(k))->0 <= number(text)->0,
    decreases text.len() - k,
{
    if k < text.len() {
        number_grows(text, k + 1);
        assert(text.take(k + 1).drop_last() =~= text.take(k));
    } else {
        assert(text.take(k) =~= text);
    }
}

/// The number that a text stands for.
pub fn parse_u32(text: &str) -> (value: Option<u32>)
    ensures
        value == parsed(text@),
{
    let length: usize = text.unicode_len();
    let start: usize = if length > 0 && text.get_char(0) == '+' {
        1
    } else {
        0
    };
    let ghost digits = if start == 1 {
        text@.drop_first()
    } else {
        text@
    };
    assert(digits =~= text@.skip(start as int));
    if start == length {
        return None;
    }
    let mut value: u32 = 0;
    let mut at: usize = start;
    assert(digits.take(0) =~= seq![]);
    while at < length
        invariant
            start <= at <= length,
            length == text@.len(),
            digits == text@.skip(start as int),
            digits.len() == length - start,
            digits.len() > 0,
            parsed(text@) == match number(digits) {
                Some(n) => if n <= u32::MAX {
                    Some(n as u32)
                } else {
                    None
                },
                None => None,
            },
            number(digits.take(at - start)) == Some(value as nat),
        decreases length - at,
    {
        let c = text.get_char(at);
        let ghost done = digits.take(at - start);
        let ghost next = digits.take(at + 1 - start);
        assert(next.drop_last() =~= done);
        assert(next.last() == c);
        let d: u32 = if '0' <= c && c <= '9' {
            c as u32 - '0' as u32
        } else {
            proof {
                if number(digits) is Some {
                    number_grows(digits, at + 1 - start);
                }
            }
            return None;
        };
        let wide: u64 = value as u64 * 10 + d as u64;
        if wide > u32::MAX as u64 {
            proof {
                if number(digits) is Some {
                    number_grows(digits, at + 1 - start);
                }
            }
            return None;
        }
        value = wide as u32;
        at = at + 1;
    }
    assert(digits.take(length - start) =~= digits);
    Some(value)
}

/// A number reads back as itself.
pub proof fn decimal_reads_back(n: u32)
    ensures
        parsed(decimal(n as nat)) == Some(n),
{
    decimal_is_its_number(n as nat);
    let text = decimal(n as nat);
    assert(text[0] != '+') by {
        decimal_has_digits(n as nat);
        assert(digit_value(text[0]) is Some);
    }
}

proof fn decimal_has_digits(n: nat)
    ensures
        decimal(n).len() > 0,
        forall|i: int| 0 <= i < decimal(n).len() ==> digit_value(#[trigger] decimal(n)[i]) is Some,
    decreases n,
{
    if n >= 10 {
        decimal_has_digits(n / 10);
    }
}

proof fn decimal_is_its_number(n: nat)
    ensures
        decimal(n).len() > 0,
        number(decimal(n)) == Some(n),
    decreases n,
{
    if n < 10 {
        assert(decimal(n).drop_last() =~= seq![]);
        assert(decimal(n).last() == digit(n));
        reveal_with_fuel(number, 2);
    } else {
        decimal_is_its_number(n / 10);
        assert(decimal(n).drop_last() =~= decimal(n / 10));
        assert(decimal(n).last() == digit(n % 10));
    }
}

/// A text without the device directory at its start, however often it stands there.
pub open spec fn without_directory(path: Seq<char>) -> Seq<char>
    decreases path.len(),
{
    if path.len() >= 5 && path.take(5) == seq!['/', 'd', 'e', 'v', '/'] {
        without_directory(path.skip(5))
    } else {
        path
    }
}

/// Whether a text holds a zero character, which no name can carry.
pub open spec fn holds_zero(text: Seq<char>) -> bool {
    exists|i: int| 0 <= i < text.len() && #[trigger] text[i] == '\0'
}

/// The name of a device's clock: the path below the device directory, after a fixed
/// prefix. A path that no name can carry gives an empty one.
pub open spec fn clock_name_of(path: Seq<char>) -> Seq<char> {
    if holds_zero(path) {
        seq![]
    } else {
        "freebsd-oss."@ + without_directory(path)
    }
}

/// The name of a device's clock.
pub fn clock_name(path: &str) -> (name: String)
    ensures
        name@ == clock_name_of(path@),
{
    let length: usize = path.unicode_len();
    let mut i: usize = 0;
    while i < length
        invariant
            i <= length,
            length == path@.len(),
            forall|j: int| 0 <= j < i ==> path@[j] != '\0',
        decreases length - i,
    {
        if path.get_char(i) == '\0' {
            return String::new();
        }
        i = i + 1;
    }
    let mut start: usize = 0;
    assert(path@.skip(0) =~= path@);
    while length - start >= 5 && path.get_char(start) == '/' && path.get_char(start + 1) == 'd'
        && path.get_char(start + 2) == 'e' && path.get_char(start + 3) == 'v' && path.get_char(
        start + 4,
    ) == '/'
        invariant
            start <= length,
            length == path@.len(),
            without_directory(path@) == without_directory(path@.skip(start as int)),
        decreases length - start,
    {
        assert(path@.skip(start as int).take(5) =~= seq!['/', 'd', 'e', 'v', '/']);
        assert(path@.skip(start as int).skip(5) =~= path@.skip(start + 5));
        start = start + 5;
    }
    proof {
        let rest = path@.skip(start as int);
        if rest.len() >= 5 {
            let head = rest.take(5);
            assert(head[0] == path@[start as int] && head[1] == path@[start + 1] && head[2]
                == path@[start + 2] && head[3] == path@[start + 3] && head[4] == path@[start + 4]);
            let dev = seq!['/', 'd', 'e', 'v', '/'];
            assert(head != dev || (head[0] == dev[0] && head[1] == dev[1] && head[2] == dev[2]
                && head[3] == dev[3] && head[4] == dev[4]));
        }
        assert(without_directory(rest) == rest);
    }
    let mut name = "freebsd-oss.".to_owned();
    name.append(path.substring_char(start, length));
    assert(path@.skip(start as int) =~= path@.subrange(start as int, length as int));
    name
}

/// What is said when the granted ring is too small for the configured delay.
pub open spec fn delay_capped_text(path: Seq<char>, granted: u32) -> Seq<char> {
    path + ": the oss.delay target is capped by the granted buffer ("@ + decimal(granted as nat)
        + ")"@
}

/// The message that the granted ring is too small for the configured delay.
pub fn log_delay_capped(path: &str, granted: u32) -> (message: String)
    ensures
        message@ == delay_capped_text(path@, granted),
{
    let mut message = path.to_owned();
    message.append(": the oss.delay target is capped by the granted buffer (");
    message.append(decimal_text(granted).as_str());
    message.append(")");
    message
}

/// A number of frames at a rate, as a fraction of a second.
pub open spec fn fraction_text(frames: u32, rate: u32) -> Seq<char> {
    decimal(frames as nat) + "/"@ + decimal(rate as nat)
}

/// A number of frames at a rate, as a fraction of a second.
pub fn latency_fraction(frames: u32, rate: u32) -> (text: String)
    ensures
        text@ == fraction_text(frames, rate),
{
    let mut text = decimal_text(frames);
    text.append("/");
    text.append(decimal_text(rate).as_str());
    text
}

/// A clock is named after its device below the device directory: the directory at the start
/// of the path makes no difference to the name, and any other path is the name's end as it
/// is. A path with a zero character has no name.
pub proof fn clock_is_named_after_the_device(path: Seq<char>)
    ensures
        holds_zero(path) ==> clock_name_of(path).len() == 0,
        !holds_zero(path) ==> clock_name_of(seq!['/', 'd', 'e', 'v', '/'] + path) == clock_name_of(
            path,
        ),
        !holds_zero(path) && (path.len() < 5 || path.take(5) != seq!['/', 'd', 'e', 'v', '/'])
            ==> clock_name_of(path) == seq![
            'f',
            'r',
            'e',
            'e',
            'b',
            's',
            'd',
            '-',
            'o',
            's',
            's',
            '.',
        ] + path,
{
    reveal_strlit("freebsd-oss.");
    assert("freebsd-oss."@ =~= seq![
        'f',
        'r',
        'e',
        'e',
        'b',
        's',
        'd',
        '-',
        'o',
        's',
        's',
        '.',
    ]);
    let dev = seq!['/', 'd', 'e', 'v', '/'];
    let below = dev + path;
    assert(below.take(5) =~= dev);
    assert(below.skip(5) =~= path);
    if !holds_zero(path) {
        assert forall|i: int| 0 <= i < below.len() implies #[trigger] below[i] != '\0' by {
            if i >= 5 {
                assert(below[i] == path[i - 5]);
            }
        }
        assert(!holds_zero(below));
    }
}

proof fn number_has_digits(text: Seq<char>)
    requires
        number(text) is Some,
    ensures
        forall|i: int| 0 <= i < text.len() ==> '0' <= #[trigger] text[i] <= '9',
    decreases text.len(),
{
    if text.len() > 0 {
        number_has_digits(text.drop_last());
        assert forall|i: int| 0 <= i < text.len() implies '0' <= #[trigger] text[i] <= '9' by {
            if i < text.len() - 1 {
                assert(text[i] == text.drop_last()[i]);
            }
        }
    }
}

proof fn digits_are_a_number(text: Seq<char>)
    requires
        forall|i: int| 0 <= i < text.len() ==> '0' <= #[trigger] text[i] <= '9',
    ensures
        number(text) is Some,
    decreases text.len(),
{
    if text.len() > 0 {
        assert forall|i: int| 0 <= i < text.drop_last().len() implies '0'
            <= #[trigger] text.drop_last()[i] <= '9' by {
            assert(text.drop_last()[i] == text[i]);
        }
        digits_are_a_number(text.drop_last());
        assert('0' <= text[text.len() - 1] <= '9');
    }
}

/// Only a row of digits is a number, with one plus sign before it at most: a text with
/// anything else in it, and an empty one, is none.
pub proof fn only_digits_are_a_number(text: Seq<char>)
    ensures
        parsed(seq![]) is None,
        parsed(seq!['+']) is None,
        parsed(text) is Some && text[0] != '+' ==> forall|i: int|
            0 <= i < text.len() ==> '0' <= #[trigger] text[i] <= '9',
        parsed(text) is Some && text[0] == '+' ==> text.len() > 1 && forall|i: int|
            1 <= i < text.len() ==> '0' <= #[trigger] text[i] <= '9',
        text.len() > 0 && text[0] != '+' ==> parsed(seq!['+'] + text) == parsed(text),
{
    assert(seq!['+'].drop_first() =~= seq![]);
    if parsed(text) is Some {
        if text[0] == '+' {
            let digits = text.drop_first();
            number_has_digits(digits);
            assert forall|i: int| 1 <= i < text.len() implies '0' <= #[trigger] text[i] <= '9' by {
                assert(text[i] == digits[i - 1]);
            }
        } else {
            number_has_digits(text);
        }
    }
    assert((seq!['+'] + text).drop_first() =~= text);
}

/// One more digit makes ten of the number before it and adds itself, as long as that is
/// within 32 bits; beyond, there is no number.
pub proof fn digits_count_tens(text: Seq<char>, last: char)
    requires
        text.len() > 0,
        forall|i: int| 0 <= i < text.len() ==> '0' <= #[trigger] text[i] <= '9',
        '0' <= last <= '9',
    ensures
        parsed(text) matches Some(front) ==> parsed(text.push(last)) == if 10 * front + (last as int
            - '0' as int) <= u32::MAX {
            Some((10 * front + (last as int - '0' as int)) as u32)
        } else {
            None::<u32>
        },
        parsed(text) is None ==> parsed(text.push(last)) is None,
        text.len() == 1 ==> parsed(text) == Some((text[0] as int - '0' as int) as u32),
{
    digits_are_a_number(text);
    let longer = text.push(last);
    assert(longer.drop_last() =~= text);
    assert(longer[0] == text[0]);
    assert('0' <= text[0]);
    if text.len() == 1 {
        reveal_with_fuel(number, 2);
        assert(text.drop_last() =~= seq![]);
    }
}

/// A fraction reads back as its frames and its rate, on either side of the stroke.
pub proof fn fraction_reads_back(frames: u32, rate: u32)
    ensures
        exists|k: int|
            0 <= k < fraction_text(frames, rate).len() && #[trigger] fraction_text(frames, rate)[k]
                == '/' && parsed(fraction_text(frames, rate).take(k)) == Some(frames) && parsed(
                fraction_text(frames, rate).skip(k + 1),
            ) == Some(rate),
{
    reveal_strlit("/");
    let left = decimal(frames as nat);
    let right = decimal(rate as nat);
    let text = fraction_text(frames, rate);
    let k = left.len() as int;
    assert("/"@ =~= seq!['/']);
    assert(text =~= left + seq!['/'] + right);
    assert(text[k] == '/');
    assert(text.take(k) =~= left);
    assert(text.skip(k + 1) =~= right);
    decimal_reads_back(frames);
    decimal_reads_back(rate);
}

/// The message on a capped delay begins with the device's path and ends with the granted
/// bytes in brackets.
pub proof fn capped_delay_names_device_and_ring(path: Seq<char>, granted: u32)
    ensures
        ({
            let text = delay_capped_text(path, granted);
            let digits = decimal(granted as nat);
            let end = text.len() - 1;
            &&& text.take(path.len() as int) == path
            &&& text[end] == ')'
            &&& text.subrange(end - digits.len(), end) == digits
            &&& text[end - digits.len() - 1] == '('
        }),
{
    reveal_strlit(": the oss.delay target is capped by the granted buffer (");
    reveal_strlit(")");
    let text = delay_capped_text(path, granted);
    let digits = decimal(granted as nat);
    let end = text.len() - 1;
    assert(text.take(path.len() as int) =~= path);
    assert(text.subrange(end - digits.len(), end) =~= digits);
}

} // verus!
