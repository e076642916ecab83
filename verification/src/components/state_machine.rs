//! The stack of boards a window shows: the top one is current; a board can open
//! another over itself, close itself back to the one below, or be replaced.
use vstd::prelude::*;
use crate::components::controls::{vk_code, vk_of};
use crate::components::events::UiEventResult;
use crate::input::keys::vkey::{VK_ENTER, VK_ESC};

verus! {

/// What a board's answer asks of the stack.
pub enum StackCommand<B> {
    /// Open this board over the current one.
    Push(B),
    /// Close the current board, back to the one below.
    Pop,
    /// Put this board in the place of the current one.
    Replace(B),
    /// Nothing for the stack: hand this result on.
    Pass(UiEventResult),
}

/// The boards after a command: a pushed board on top, the top one gone when
/// another lies below it, the top one replaced, or the same boards.
pub open spec fn stack_after<B>(s: Seq<B>, c: StackCommand<B>) -> Seq<B> {
    match c {
        StackCommand::Push(b) => s.push(b),
        StackCommand::Pop => if s.len() > 1 {
            s.drop_last()
        } else {
            s
        },
        StackCommand::Replace(b) => if s.len() >= 1 {
            s.update(s.len() - 1, b)
        } else {
            s
        },
        StackCommand::Pass(_) => s,
    }
}

/// A stack of boards that is never empty.
pub struct BoardStack<B> {
    stack: Vec<B>,
}

impl<B> BoardStack<B> {
    /// The boards from the bottom to the current one.
    pub closed spec fn view_spec(&self) -> Seq<B> {
        self.stack@
    }

    /// Whether the stack holds a board: every stack made by `new` and changed
    /// by `process_state_result` does.
    pub open spec fn wf(&self) -> bool {
        self.view_spec().len() >= 1
    }

    /// A stack holding one board.
    pub fn new(initial: B) -> (r: Self)
        ensures
            r.view_spec() == seq![initial],
    {
        let mut stack: Vec<B> = Vec::new();
        stack.push(initial);
        Self { stack }
    }

    /// How many boards are stacked.
    pub fn stack_depth(&self) -> (r: usize)
        ensures
            r == self.view_spec().len(),
    {
        self.stack.len()
    }

    /// The current board: the top of the stack.
    pub fn current_board(&self) -> (r: &B)
        requires
            self.wf(),
        ensures
            *r == self.view_spec().last(),
    {
        let n = self.stack.len();
        &self.stack[n - 1]
    }

    /// Carries out what a board asked: opening a board over the current one,
    /// closing the current one when it is not the last (handing it back), or
    /// replacing it all redraw; anything else is handed on unchanged.
    pub fn process_state_result(&mut self, command: StackCommand<B>) -> (r: (UiEventResult, Option<B>))
        ensures
            final(self).view_spec() == stack_after(old(self).view_spec(), command),
            old(self).wf() ==> final(self).wf(),
            r.0 == match command {
                StackCommand::Pass(x) => x,
                _ => UiEventResult::RequiresRedraw,
            },
            r.1 == match command {
                StackCommand::Pop => if old(self).view_spec().len() > 1 {
                    Some(old(self).view_spec().last())
                } else {
                    None
                },
                _ => None,
            },
    {
        match command {
            StackCommand::Push(b) => {
                self.stack.push(b);
                (UiEventResult::RequiresRedraw, None)
            },
            StackCommand::Pop => {
                if self.stack.len() > 1 {
                    let popped = self.stack.pop();
                    (UiEventResult::RequiresRedraw, popped)
                } else {
                    (UiEventResult::RequiresRedraw, None)
                }
            },
            StackCommand::Replace(b) => {
                let n = self.stack.len();
                if n >= 1 {
                    self.stack.set(n - 1, b);
                }
                (UiEventResult::RequiresRedraw, None)
            },
            StackCommand::Pass(x) => (x, None),
        }
    }

    /// A key the current board did not handle: escape or enter close it when it
    /// is not the last one, handing it back; any other key stays unhandled.
    pub fn main_key_down(&mut self, key: u32) -> (r: (UiEventResult, Option<B>))
        ensures
            ({
                let vk = vk_of(key);
                if (vk == VK_ESC || vk == VK_ENTER) && old(self).view_spec().len() > 1 {
                    r.0 == UiEventResult::RequiresRedraw && r.1 == Some(old(self).view_spec().last())
                        && final(self).view_spec() == old(self).view_spec().drop_last()
                } else {
                    r.0 == UiEventResult::NotHandled && r.1 is None && final(self).view_spec() == old(self).view_spec()
                }
            }),
    {
        let vk = vk_code(key);
        if (vk == VK_ESC || vk == VK_ENTER) && self.stack.len() > 1 {
            self.process_state_result(StackCommand::Pop)
        } else {
            (UiEventResult::NotHandled, None)
        }
    }
}

/// Opening a board and closing it again leaves the stack as it was; closing the
/// only board leaves it in place; no command empties a stack.
pub proof fn law_push_then_pop<B>(s: Seq<B>, b: B, c: StackCommand<B>)
    requires
        s.len() >= 1,
    ensures
        stack_after(stack_after(s, StackCommand::Push(b)), StackCommand::Pop) == s,
        s.len() == 1 ==> stack_after(s, StackCommand::Pop) == s,
        stack_after(s, c).len() >= 1,
{
    assert(s.push(b).drop_last() =~= s);
}

} // verus!
