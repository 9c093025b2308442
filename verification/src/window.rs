//! The decisions of the frame loop: what each window event asks for, and
//! the text of the status line.

use vstd::prelude::*;
use vstd::string::StringExecFns;

verus! {

/// What the windowing system tells the frame loop.
#[derive(Clone, Copy, Debug, PartialEq, Eq, Structural)]
pub enum FrameSignal {
    /// The loop came round again with nothing else to do.
    Tick,
    /// The window is asked to close.
    CloseRequested,
    /// The window has to be drawn again.
    RedrawRequested,
    /// The window now has this width and height in pixels.
    Resized(u32, u32),
    /// Anything else.
    Other,
}

/// What the frame loop does about a signal.
#[derive(Clone, Copy, Debug)]
pub struct Reaction {
    /// Leave the loop.
    pub exit: bool,
    /// Hand this width and height to the surface and report them to the
    /// shader from now on.
    pub resize: Option<(u32, u32)>,
    /// Draw a frame, after the resize if there is one.
    pub redraw: bool,
}

/// What `signal` asks for.
pub open spec fn reaction_to(signal: FrameSignal) -> Reaction {
    match signal {
        FrameSignal::Tick => Reaction { exit: false, resize: None, redraw: true },
        FrameSignal::CloseRequested => Reaction { exit: true, resize: None, redraw: false },
        FrameSignal::RedrawRequested => Reaction { exit: false, resize: None, redraw: true },
        FrameSignal::Resized(width, height) => Reaction {
            exit: false,
            resize: Some((width, height)),
            redraw: true,
        },
        FrameSignal::Other => Reaction { exit: false, resize: None, redraw: false },
    }
}

/// Decides what to do about `signal`: a frame is drawn on every tick, on
/// every redraw request and after every resize; a close request ends the
/// loop; anything else is ignored.
pub fn window_event(signal: FrameSignal) -> (reaction: Reaction)
    ensures
        reaction == reaction_to(signal),
{
    match signal {
        FrameSignal::Tick => Reaction { exit: false, resize: None, redraw: true },
        FrameSignal::CloseRequested => Reaction { exit: true, resize: None, redraw: false },
        FrameSignal::RedrawRequested => Reaction { exit: false, resize: None, redraw: true },
        FrameSignal::Resized(width, height) => Reaction {
            exit: false,
            resize: Some((width, height)),
            redraw: true,
        },
        FrameSignal::Other => Reaction { exit: false, resize: None, redraw: false },
    }
}

/// The character of a decimal digit.
pub open spec fn digit(value: int) -> char
    recommends
        0 <= value < 10,
{
    seq!['0', '1', '2', '3', '4', '5', '6', '7', '8', '9'][value]
}

/// The decimal numeral of `number`, without leading zeros.
pub open spec fn decimal(number: nat) -> Seq<char>
    decreases number,
{
    if number < 10 {
        seq![digit(number as int)]
    } else {
        decimal(number / 10).push(digit((number % 10) as int))
    }
}

/// `text` with as many `fill` characters in front as it takes to reach
/// `width`; unchanged if it is that long already.
pub open spec fn padded(text: Seq<char>, width: nat, fill: char) -> Seq<char> {
    if text.len() >= width {
        text
    } else {
        Seq::new((width - text.len()) as nat, |i: int| fill) + text
    }
}

/// A time of day as `HH:MM:SS`, each field in at least two digits.
pub open spec fn clock_text(hour: u32, minute: u32, second: u32) -> Seq<char> {
    padded(decimal(hour as nat), 2, '0') + seq![':'] + padded(decimal(minute as nat), 2, '0')
        + seq![':'] + padded(decimal(second as nat), 2, '0')
}

/// The status line: a carriage return, so that each line overwrites the
/// last; the time of the last update, if there was one; and the time the
/// frame took, in microseconds, right-aligned in five columns.
pub open spec fn status_text(updated_time: Option<Seq<char>>, render_time: nat) -> Seq<char> {
    let head = match updated_time {
        Some(time) => "\r(updated: "@ + time + ") Render time:"@,
        None => "\rRender time:"@,
    };
    head + padded(decimal(render_time), 5, ' ') + "μs"@
}

/// The numeral of one digit.
fn digit_text(value: u8) -> (text: &'static str)
    requires
        value < 10,
    ensures
        text@ == seq![digit(value as int)],
{
    proof {
        reveal_strlit("0");
        reveal_strlit("1");
        reveal_strlit("2");
        reveal_strlit("3");
        reveal_strlit("4");
        reveal_strlit("5");
        reveal_strlit("6");
        reveal_strlit("7");
        reveal_strlit("8");
        reveal_strlit("9");
    }
    let text = match value {
        0 => "0",
        1 => "1",
        2 => "2",
        3 => "3",
        4 => "4",
        5 => "5",
        6 => "6",
        7 => "7",
        8 => "8",
        _ => "9",
    };
    assert(text@ =~= seq![digit(value as int)]);
    text
}

/// Ten to the power `exponent`.
spec fn power_of_ten(exponent: nat) -> nat
    decreases exponent,
{
    if exponent == 0 {
        1
    } else {
        10 * power_of_ten((exponent - 1) as nat)
    }
}

/// A number below ten to the `digits` has a numeral of at most `digits`
/// digits.
proof fn lemma_decimal_length(number: nat, digits: nat)
    requires
        digits >= 1,
        number < power_of_ten(digits),
    ensures
        1 <= decimal(number).len() <= digits,
    decreases digits,
{
    if number >= 10 {
        assert(power_of_ten(1) == 10) by {
            reveal_with_fuel(power_of_ten, 2);
        }
        lemma_decimal_length(number / 10, (digits - 1) as nat);
    }
}

/// How many digits the numeral of `number` has.
fn digit_count(number: u128) -> (count: usize)
    ensures
        count == decimal(number as nat).len(),
        1 <= count <= 39,
    decreases number,
{
    proof {
        assert(power_of_ten(39) == 1_000_000_000_000_000_000_000_000_000_000_000_000_000nat) by {
            reveal_with_fuel(power_of_ten, 40);
        }
        lemma_decimal_length(number as nat, 39);
    }
    if number < 10 {
        1
    } else {
        digit_count(number / 10) + 1
    }
}

/// Appends the numeral of `number` to `out`.
fn push_decimal(out: &mut String, number: u128)
    ensures
        final(out)@ == old(out)@ + decimal(number as nat),
    decreases number,
{
    if number < 10 {
        out.append(digit_text(number as u8));
    } else {
        push_decimal(out, number / 10);
        out.append(digit_text((number % 10) as u8));
        assert(out@ =~= old(out)@ + decimal(number as nat));
    }
}

/// Appends the numeral of `number` to `out`, filled up in front to `width`
/// characters with `fill`, which holds the one character to fill with.
fn push_padded(out: &mut String, number: u128, width: usize, fill: &str)
    requires
        fill@.len() == 1,
    ensures
        final(out)@ == old(out)@ + padded(decimal(number as nat), width as nat, fill@[0]),
{
    let count = digit_count(number);
    let mut filled: usize = count;
    while filled < width
        invariant
            count == decimal(number as nat).len(),
            count <= filled,
            count < width ==> filled <= width,
            count >= width ==> filled == count,
            fill@.len() == 1,
            out@ == old(out)@ + Seq::new((filled - count) as nat, |i: int| fill@[0]),
        decreases width - filled,
    {
        out.append(fill);
        filled += 1;
        assert(out@ =~= old(out)@ + Seq::new((filled - count) as nat, |i: int| fill@[0]));
    }
    push_decimal(out, number);
    assert(out@ =~= old(out)@ + padded(decimal(number as nat), width as nat, fill@[0]));
}

/// Writes a time of day as `HH:MM:SS`.
pub fn format_utc_to_string(hour: u32, minute: u32, second: u32) -> (text: String)
    ensures
        text@ == clock_text(hour, minute, second),
{
    proof {
        reveal_strlit("0");
        reveal_strlit(":");
    }
    let mut text = String::new();
    push_padded(&mut text, hour as u128, 2, "0");
    text.append(":");
    push_padded(&mut text, minute as u128, 2, "0");
    text.append(":");
    push_padded(&mut text, second as u128, 2, "0");
    assert(text@ =~= clock_text(hour, minute, second));
    text
}

/// Writes the status line for a frame that took `render_time`
/// microseconds, after an update at `updated_time` if there was one.
pub fn status_line(updated_time: Option<&str>, render_time: u128) -> (line: String)
    ensures
        line@ == status_text(
            match updated_time {
                Some(time) => Some(time@),
                None => None,
            },
            render_time as nat,
        ),
{
    proof {
        reveal_strlit(" ");
    }
    let mut line = String::new();
    match updated_time {
        Some(time) => {
            line.append("\r(updated: ");
            line.append(time);
            line.append(") Render time:");
        },
        None => {
            line.append("\rRender time:");
        },
    }
    push_padded(&mut line, render_time, 5, " ");
    line.append("μs");
    assert(line@ =~= status_text(
        match updated_time {
            Some(time) => Some(time@),
            None => None,
        },
        render_time as nat,
    ));
    line
}

} // verus!
