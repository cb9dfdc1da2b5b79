//! The window's counter and the messages that change it.

use vstd::prelude::*;
use vstd::string::StringExecFns;

verus! {

/// What a button of the window asks for.
#[derive(Clone, Copy, Debug, PartialEq, Eq, Structural)]
pub enum Msg {
    Increment,
    Decrement,
}

/// The state behind the window: a counter that wraps around at both ends.
#[derive(Clone, Copy, Debug, PartialEq, Eq, Structural)]
pub struct App {
    pub counter: u8,
}

/// The counter after `msg`, counted modulo 256.
pub open spec fn counter_after(counter: u8, msg: Msg) -> int {
    match msg {
        Msg::Increment => (counter + 1) % 256,
        Msg::Decrement => (counter - 1) % 256,
    }
}

/// The character of one decimal digit.
pub open spec fn digit_char(digit: nat) -> char
    recommends
        digit < 10,
{
    if digit == 0 {
        '0'
    } else if digit == 1 {
        '1'
    } else if digit == 2 {
        '2'
    } else if digit == 3 {
        '3'
    } else if digit == 4 {
        '4'
    } else if digit == 5 {
        '5'
    } else if digit == 6 {
        '6'
    } else if digit == 7 {
        '7'
    } else if digit == 8 {
        '8'
    } else {
        '9'
    }
}

/// A number in decimal, without leading zeros.
pub open spec fn decimal(n: nat) -> Seq<char>
    decreases n,
{
    if n < 10 {
        seq![digit_char(n)]
    } else {
        decimal(n / 10).push(digit_char(n % 10))
    }
}

/// The text that the window shows for a counter.
pub open spec fn label_text(counter: u8) -> Seq<char> {
    "Counter: "@ + decimal(counter as nat)
}

/// One decimal digit as text.
fn digit_str(digit: u8) -> (text: &'static str)
    requires
        digit < 10,
    ensures
        text@ == seq![digit_char(digit as nat)],
{
    proof {
        reveal_strlit("0");
        reveal_strlit("1");
        reveal_strlit("2");
        reveal_strlit("3");
        reveal_strlit("4");
        reveal_strlit("5");
        reveal_strlit("6");
        reveal_strlit("7");
        reveal_strlit("8");
        reveal_strlit("9");
    }
    let text = match digit {
        0 => "0",
        1 => "1",
        2 => "2",
        3 => "3",
        4 => "4",
        5 => "5",
        6 => "6",
        7 => "7",
        8 => "8",
        _ => "9",
    };
    assert(text@ =~= seq![digit_char(digit as nat)]);
    text
}

impl App {
    /// The state of a window that starts at `counter`.
    pub fn init(counter: u8) -> (model: App)
        ensures
            model.counter == counter,
    {
        App { counter }
    }

    /// Applies a message: one step up or down, from 255 up to 0 and from 0
    /// down to 255.
    pub fn update(&mut self, msg: Msg)
        ensures
            final(self).counter == counter_after(old(self).counter, msg),
    {
        match msg {
            Msg::Increment => {
                self.counter = self.counter.wrapping_add(1);
            },
            Msg::Decrement => {
                self.counter = self.counter.wrapping_sub(1);
            },
        }
    }

    /// The text of the window's label: the counter in decimal after `Counter: `.
    pub fn label(&self) -> (text: String)
        ensures
            text@ == label_text(self.counter),
    {
        let n: u8 = self.counter;
        let mut text = String::from_str("Counter: ");
        assert(decimal(n as nat) =~= if n < 10 {
            seq![digit_char(n as nat)]
        } else if n < 100 {
            seq![digit_char(n as nat / 10), digit_char(n as nat % 10)]
        } else {
            seq![digit_char(n as nat / 100), digit_char(n as nat / 10 % 10), digit_char(n as nat % 10)]
        }) by {
            reveal_with_fuel(decimal, 3);
            assert(n as nat / 10 / 10 == n as nat / 100);
        }
        if n >= 100 {
            text.append(digit_str(n / 100));
        }
        if n >= 10 {
            text.append(digit_str(n / 10 % 10));
        }
        text.append(digit_str(n % 10));
        assert(text@ =~= label_text(self.counter));
        text
    }
}

} // verus!
