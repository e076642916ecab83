//! Key events as they are handed to the system, how they are written in the log,
//! and what playing a step of a script sends.
use vstd::prelude::*;
use crate::input::steps::{InputStep, KeyInput, StepView};
use crate::model::data::{hex_char, hex_digit_char};
use crate::text::{join, join_strings, string_from_chars};

verus! {

/// A key event for the system: the virtual key and whether it goes down.
#[derive(Debug, Clone, Copy, PartialEq, Eq, Structural)]
pub struct KeyboardInput {
    pub vk_code: u16,
    pub key_down: bool,
}

/// The lower case hexadecimal digits of `n`, without leading zeros.
pub open spec fn hex_digits(n: nat) -> Seq<char>
    decreases n,
{
    if n < 16 {
        seq![hex_char(n as int)]
    } else {
        hex_digits(n / 16).push(hex_char((n % 16) as int))
    }
}

/// How a key event is written: `{0x41,down}` or `{0x41,up}`.
pub open spec fn input_text(i: KeyboardInput) -> Seq<char> {
    seq!['{', '0', 'x'] + hex_digits(i.vk_code as nat) + seq![','] + (if i.key_down {
        "down"@
    } else {
        "up"@
    }) + seq!['}']
}

/// How key events are written: their texts between brackets, separated by commas.
pub open spec fn inputs_text(v: Seq<KeyboardInput>) -> Seq<char> {
    seq!['['] + join(v.map_values(|i: KeyboardInput| input_text(i)), seq![',']) + seq![']']
}

/// Appends the hexadecimal digits of `n`.
fn push_hex_digits(out: &mut Vec<char>, n: u16)
    ensures
        final(out)@ == old(out)@ + hex_digits(n as nat),
    decreases n,
{
    if n >= 16 {
        push_hex_digits(out, n / 16);
    }
    let d = hex_digit_char((n % 16) as u8);
    out.push(d);
    proof {
        if n >= 16 {
            assert(final(out)@ =~= old(out)@ + hex_digits(n as nat));
        } else {
            assert(final(out)@ =~= old(out)@ + hex_digits(n as nat));
        }
    }
}

impl KeyboardInput {
    /// How the key event is written in the log: `{0x41,down}`.
    pub fn to_text(&self) -> (r: String)
        ensures
            r@ == input_text(*self),
    {
        let mut v: Vec<char> = Vec::new();
        v.push('{');
        v.push('0');
        v.push('x');
        push_hex_digits(&mut v, self.vk_code);
        v.push(',');
        if self.key_down {
            v.push('d');
            v.push('o');
            v.push('w');
            v.push('n');
        } else {
            v.push('u');
            v.push('p');
        }
        v.push('}');
        proof {
            reveal_strlit("down");
            reveal_strlit("up");
        }
        assert(v@ =~= input_text(*self));
        string_from_chars(&v)
    }
}

/// How key events are written in the log: `[{0x41,down},{0x41,up}]`.
pub fn inputs_to_text(inputs: &Vec<KeyboardInput>) -> (r: String)
    ensures
        r@ == inputs_text(inputs@),
{
    let mut texts: Vec<String> = Vec::new();
    let mut i: usize = 0;
    while i < inputs.len()
        invariant
            i <= inputs@.len(),
            texts@.len() == i,
            forall|k: int| 0 <= k < i ==> (#[trigger] texts@[k])@ == input_text(inputs@[k]),
        decreases inputs.len() - i,
    {
        texts.push(inputs[i].to_text());
        i = i + 1;
    }
    assert(texts@.map_values(|p: String| p@) =~= inputs@.map_values(|i: KeyboardInput| input_text(i)));
    let body = join_strings(&texts, ",");
    let mut v: Vec<char> = Vec::new();
    v.push('[');
    let bc = crate::text::string_chars(&body);
    crate::text::append_chars(&mut v, &bc);
    v.push(']');
    proof {
        reveal_strlit(",");
        assert(","@ =~= seq![',']);
    }
    assert(v@ =~= inputs_text(inputs@));
    string_from_chars(&v)
}

/// The key event for the system of a script's key event.
pub fn map_api_input(input: &KeyInput) -> (r: KeyboardInput)
    ensures
        r.vk_code == input.vk_code,
        r.key_down == input.key_down,
{
    KeyboardInput { vk_code: input.vk_code, key_down: input.key_down }
}

/// What playing a step does: send key events, wait some milliseconds, or nothing.
#[derive(Debug, Clone, PartialEq, Eq)]
pub enum StepAction {
    Send(Vec<KeyboardInput>),
    Sleep(u64),
    Nothing,
}

/// The system key events of script key events.
pub open spec fn api_inputs(v: Seq<KeyInput>) -> Seq<KeyboardInput> {
    v.map_values(|k: KeyInput| KeyboardInput { vk_code: k.vk_code, key_down: k.key_down })
}

impl InputStep {
    /// What playing the step does: a key event or a group of them is sent as is;
    /// a pause waits its milliseconds, and a pause of none does nothing.
    pub fn action(&self) -> (r: StepAction)
        ensures
            match self@ {
                StepView::Key(k) => r matches StepAction::Send(v) && v@ == api_inputs(seq![k]),
                StepView::Keys(ks) => r matches StepAction::Send(v) && v@ == api_inputs(ks),
                StepView::Pause(p) => if p > 0 {
                    r == StepAction::Sleep(p)
                } else {
                    r == StepAction::Nothing
                },
            },
    {
        match self {
            InputStep::Key(k) => {
                let v = vec![map_api_input(k)];
                assert(v@ =~= api_inputs(seq![*k]));
                StepAction::Send(v)
            },
            InputStep::Keys(ks) => {
                let mut v: Vec<KeyboardInput> = Vec::new();
                let mut i: usize = 0;
                while i < ks.inputs.len()
                    invariant
                        i <= ks.inputs@.len(),
                        v@ == api_inputs(ks.inputs@.take(i as int)),
                    decreases ks.inputs.len() - i,
                {
                    v.push(map_api_input(&ks.inputs[i]));
                    i = i + 1;
                    assert(v@ =~= api_inputs(ks.inputs@.take(i as int)));
                }
                assert(ks.inputs@.take(i as int) =~= ks.inputs@);
                StepAction::Send(v)
            },
            InputStep::Pause(p) => {
                if p.pause > 0 {
                    StepAction::Sleep(p.pause)
                } else {
                    StepAction::Nothing
                }
            },
        }
    }
}

} // verus!
