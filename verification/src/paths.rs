//! The names of the output files.
//!
//! Every output of a subscene is named after its kind and the subscene's
//! index, written in decimal and padded with zeros to three characters.

use vstd::prelude::*;
use vstd::string::*;

verus! {

/// The kind of an output file.
#[derive(Clone, Copy, Debug, PartialEq, Eq, Structural)]
pub enum OutputKind {
    /// The picture of the scene itself.
    SceneImage,
    /// The picture accumulated while tracing.
    DebugImage,
    /// The impulse response as audio.
    ImpulseAudio,
}

/// The character of a decimal digit.
pub open spec fn digit_char(d: nat) -> char
    recommends
        d < 10,
{
    if d == 0 {
        '0'
    } else if d == 1 {
        '1'
    } else if d == 2 {
        '2'
    } else if d == 3 {
        '3'
    } else if d == 4 {
        '4'
    } else if d == 5 {
        '5'
    } else if d == 6 {
        '6'
    } else if d == 7 {
        '7'
    } else if d == 8 {
        '8'
    } else {
        '9'
    }
}

/// A number in decimal, without leading zeros.
pub open spec fn decimal(n: nat) -> Seq<char>
    decreases n,
{
    if n < 10 {
        seq![digit_char(n)]
    } else {
        decimal(n / 10).push(digit_char(n % 10))
    }
}

/// A number in decimal, with zeros in front where it has fewer than `width`
/// digits.
pub open spec fn zero_padded(n: nat, width: nat) -> Seq<char> {
    let digits = decimal(n);
    if digits.len() >= width {
        digits
    } else {
        Seq::new((width - digits.len()) as nat, |i: int| '0') + digits
    }
}

/// A subscene index as it stands in a file name: at least three characters,
/// the minus sign of a negative index counted among them.
pub open spec fn index_text(subscene: i32) -> Seq<char> {
    if subscene >= 0 {
        zero_padded(subscene as nat, 3)
    } else {
        seq!['-'] + zero_padded((-subscene) as nat, 2)
    }
}

/// What stands before the index in the name of an output of a kind.
pub open spec fn stem_of(kind: OutputKind) -> Seq<char> {
    match kind {
        OutputKind::SceneImage => "output/scene"@,
        OutputKind::DebugImage => "output/debug"@,
        OutputKind::ImpulseAudio => "output/impulse"@,
    }
}

/// The extension of an output of a kind.
pub open spec fn extension_of(kind: OutputKind) -> Seq<char> {
    match kind {
        OutputKind::SceneImage => ".png"@,
        OutputKind::DebugImage => ".png"@,
        OutputKind::ImpulseAudio => ".wav"@,
    }
}

/// The path of the output of a kind for a subscene.
pub open spec fn path_of(kind: OutputKind, subscene: i32) -> Seq<char> {
    stem_of(kind) + index_text(subscene) + extension_of(kind)
}

/// Proves how many digits a number below a thousand has.
pub proof fn lemma_decimal_len(n: nat)
    ensures
        decimal(n).len() >= 1,
        n < 10 <==> decimal(n).len() == 1,
        10 <= n < 100 <==> decimal(n).len() == 2,
        n >= 100 ==> decimal(n).len() >= 3,
    decreases n,
{
    if n >= 10 {
        lemma_decimal_len(n / 10);
    }
}

/// Gives a decimal digit as text.
fn digit_text(d: u32) -> (s: &'static str)
    requires
        d < 10,
    ensures
        s@ == seq![digit_char(d as nat)],
{
    proof {
        reveal_strlit("0");
        reveal_strlit("1");
        reveal_strlit("2");
        reveal_strlit("3");
        reveal_strlit("4");
        reveal_strlit("5");
        reveal_strlit("6");
        reveal_strlit("7");
        reveal_strlit("8");
        reveal_strlit("9");
    }
    let s = match d {
        0 => "0",
        1 => "1",
        2 => "2",
        3 => "3",
        4 => "4",
        5 => "5",
        6 => "6",
        7 => "7",
        8 => "8",
        _ => "9",
    };
    assert(s@ =~= seq![digit_char(d as nat)]);
    s
}

/// Appends a number in decimal.
fn append_decimal(text: &mut String, n: u32)
    ensures
        final(text)@ == old(text)@ + decimal(n as nat),
    decreases n,
{
    if n >= 10 {
        append_decimal(text, n / 10);
    }
    text.append(digit_text(n % 10));
    assert(text@ =~= old(text)@ + decimal(n as nat));
}

/// Appends a number in decimal, padded with zeros to two or three characters.
fn append_padded(text: &mut String, n: u32, wide: bool)
    ensures
        final(text)@ == old(text)@ + zero_padded(
            n as nat,
            if wide {
                3
            } else {
                2
            },
        ),
{
    proof {
        lemma_decimal_len(n as nat);
        reveal_strlit("0");
    }
    let ghost width: nat = if wide {
        3
    } else {
        2
    };
    if wide && n < 100 {
        text.append("0");
    }
    if n < 10 {
        text.append("0");
    }
    let ghost zeros = Seq::new((width - decimal(n as nat).len()) as nat, |i: int| '0');
    assert(decimal(n as nat).len() < width ==> text@ =~= old(text)@ + zeros);
    append_decimal(text, n);
    assert(text@ =~= old(text)@ + zero_padded(n as nat, width));
}

/// Appends a subscene index as it stands in a file name.
fn append_index(text: &mut String, subscene: i32)
    ensures
        final(text)@ == old(text)@ + index_text(subscene),
{
    if subscene >= 0 {
        append_padded(text, subscene as u32, true);
    } else {
        proof {
            reveal_strlit("-");
        }
        text.append("-");
        let magnitude: u32 = if subscene == i32::MIN {
            0x8000_0000
        } else {
            (-subscene) as u32
        };
        append_padded(text, magnitude, false);
        assert(text@ =~= old(text)@ + index_text(subscene));
    }
}

/// Builds the path of the output of a kind for a subscene.
pub fn output_path(kind: OutputKind, subscene: i32) -> (path: String)
    ensures
        path@ == path_of(kind, subscene),
{
    let mut path = String::from_str(
        match kind {
            OutputKind::SceneImage => "output/scene",
            OutputKind::DebugImage => "output/debug",
            OutputKind::ImpulseAudio => "output/impulse",
        },
    );
    append_index(&mut path, subscene);
    path.append(
        match kind {
            OutputKind::SceneImage => ".png",
            OutputKind::DebugImage => ".png",
            OutputKind::ImpulseAudio => ".wav",
        },
    );
    path
}

} // verus!
