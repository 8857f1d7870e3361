//! The stack of currently active style codes.
//!
//! One `ColorContext` belongs to one execution context; it is never shared.
//! The stack is initialized with a single sentinel entry, the default
//! foreground code, and no operation ever removes that last entry, so the
//! "current" enclosing style is always defined.

use vstd::prelude::*;

verus! {

/// The sentinel default style: the white-foreground escape code that an
/// otherwise unstyled terminal region is rendered with.
pub open spec fn default_code() -> Seq<char> {
    "\x1b[37m"@
}

/// The effect of pushing a code onto a style stack.
pub open spec fn push_effect(s: Seq<Seq<char>>, code: Seq<char>) -> Seq<Seq<char>> {
    s.push(code)
}

/// The effect of popping a style stack: removes the top entry, except that
/// the last remaining entry (the sentinel) is never removed.
pub open spec fn pop_effect(s: Seq<Seq<char>>) -> Seq<Seq<char>> {
    if s.len() > 1 {
        s.drop_last()
    } else {
        s
    }
}

/// The style code a stack currently exposes: its top entry, or the sentinel
/// default if the stack is somehow empty.
pub open spec fn current_of(s: Seq<Seq<char>>) -> Seq<char> {
    if s.len() == 0 {
        default_code()
    } else {
        s.last()
    }
}

/// A stack of active ANSI style codes, innermost on top.
pub struct ColorContext {
    stack: Vec<String>,
}

impl View for ColorContext {
    type V = Seq<Seq<char>>;

    closed spec fn view(&self) -> Seq<Seq<char>> {
        self.stack@.map_values(|s: String| s@)
    }
}

impl ColorContext {
    /// The stack invariant: at least the sentinel entry is always present.
    pub open spec fn wf(&self) -> bool {
        self@.len() >= 1
    }

    /// Creates a context holding only the sentinel default entry.
    pub fn new() -> (ctx: ColorContext)
        ensures
            ctx@ == seq![default_code()],
            ctx.wf(),
    {
        let mut stack: Vec<String> = Vec::new();
        stack.push("\x1b[37m".to_owned());
        let ctx = ColorContext { stack };
        proof {
            assert(ctx@ =~= seq![default_code()]);
        }
        ctx
    }

    /// Pushes `color` as the new innermost active style.
    pub fn push(&mut self, color: &str)
        ensures
            final(self)@ == push_effect(old(self)@, color@),
            old(self).wf() ==> final(self).wf(),
    {
        self.stack.push(color.to_owned());
        proof {
            assert(self@ =~= push_effect(old(self)@, color@));
        }
    }

    /// Removes the innermost active style. Popping when only the sentinel
    /// remains is a no-op, so the stack never becomes empty.
    pub fn pop(&mut self)
        ensures
            final(self)@ == pop_effect(old(self)@),
            old(self).wf() ==> final(self).wf(),
    {
        if self.stack.len() > 1 {
            self.stack.pop();
            proof {
                assert(self@ =~= pop_effect(old(self)@));
            }
        }
    }

    /// Returns the innermost active style code, or the sentinel default if
    /// the stack is empty (unreachable for a well-formed context).
    pub fn current_color(&self) -> (color: String)
        ensures
            color@ == current_of(self@),
    {
        if self.stack.len() == 0 {
            "\x1b[37m".to_owned()
        } else {
            self.stack[self.stack.len() - 1].clone()
        }
    }
}

} // verus!
