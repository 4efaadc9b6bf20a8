//! The non-blocking command builder.

use vstd::prelude::*;
use crate::creation_flags::{has_flag, CREATE_NO_WINDOW};
use crate::platform::Platform;
use crate::std_command::{
    lemma_std_hide_idempotent, lemma_std_hide_keeps_flags, StdCommand, StdCommandExt,
    StdCommandView,
};

verus! {

/// What a non-blocking command builder holds: all that a blocking one holds,
/// and whether the child is killed when its handle is dropped.
pub struct TokioCommandView {
    /// The part that the spawn primitive reads.
    pub command: StdCommandView,
    /// Whether dropping the handle of the child kills the child.
    pub kill_on_drop: bool,
}

impl TokioCommandView {
    /// A fresh builder: no arguments, an empty mask, and a child that
    /// outlives its handle.
    pub open spec fn fresh(platform: Platform, program: Seq<char>) -> Self {
        TokioCommandView { command: StdCommandView::fresh(platform, program), kill_on_drop: false }
    }

    /// The builder with one more argument at the end.
    pub open spec fn with_arg(self, arg: Seq<char>) -> Self {
        TokioCommandView { command: self.command.with_arg(arg), ..self }
    }

    /// The builder with its mask replaced by `flags`.
    pub open spec fn with_creation_flags(self, flags: u32) -> Self {
        TokioCommandView { command: self.command.with_creation_flags(flags), ..self }
    }

    /// The builder with `kill_on_drop` replaced.
    pub open spec fn with_kill_on_drop(self, kill_on_drop: bool) -> Self {
        TokioCommandView { kill_on_drop, ..self }
    }

    /// The builder with its console window hidden, which is the console
    /// window hidden in the part that the spawn primitive reads.
    pub open spec fn console_hidden(self) -> Self {
        TokioCommandView { command: self.command.console_hidden(), ..self }
    }
}

/// A builder for a child process that is waited for without blocking.
#[derive(Debug, PartialEq, Eq)]
pub struct TokioCommand {
    inner: StdCommand,
    kill_on_drop: bool,
}

impl View for TokioCommand {
    type V = TokioCommandView;

    closed spec fn view(&self) -> TokioCommandView {
        TokioCommandView { command: self.inner@, kill_on_drop: self.kill_on_drop }
    }
}

/// Hides the console window of a non-blocking command.
pub trait TokioCommandExt: Sized {
    /// The platform the builder is for.
    spec fn target(&self) -> Platform;

    /// The creation-flags mask the builder holds.
    spec fn mask(&self) -> u32;

    /// Configures the command to not create a visible console window on
    /// Windows. On every other platform this changes nothing.
    ///
    /// The flag is OR-ed into the mask, so the flags set before stay set. A
    /// later call that assigns the mask undoes this one: hide the window
    /// after such calls.
    ///
    /// The builder itself comes back, so that calls can be chained.
    fn hide_console_window(&mut self) -> (ret: &mut Self)
        ensures
            *final(self) == *final(ret),
            ret.target() == old(self).target(),
            old(self).target().reads_creation_flags() ==> ret.mask() == old(self).mask()
                | CREATE_NO_WINDOW,
            !old(self).target().reads_creation_flags() ==> *ret == *old(self),
            forall|flag: u32| has_flag(old(self).mask(), flag) ==> #[trigger] has_flag(
                ret.mask(),
                flag,
            ),
    ;
}

impl TokioCommand {
    /// A builder that runs `program` on `platform`, with no arguments, an
    /// empty creation-flags mask, and a child that outlives its handle.
    pub fn new(platform: Platform, program: &str) -> (cmd: Self)
        ensures
            cmd@ == TokioCommandView::fresh(platform, program@),
    {
        TokioCommand { inner: StdCommand::new(platform, program), kill_on_drop: false }
    }

    /// Adds an argument behind those already there.
    pub fn arg(&mut self, arg: &str) -> (ret: &mut Self)
        ensures
            *final(self) == *final(ret),
            ret@ == old(self)@.with_arg(arg@),
    {
        self.inner.arg(arg);
        self
    }

    /// Sets the creation-flags mask to `flags`, dropping what it held.
    pub fn creation_flags(&mut self, flags: u32) -> (ret: &mut Self)
        ensures
            *final(self) == *final(ret),
            ret@ == old(self)@.with_creation_flags(flags),
    {
        self.inner.creation_flags(flags);
        self
    }

    /// Sets whether dropping the handle of the child kills the child.
    pub fn kill_on_drop(&mut self, kill_on_drop: bool) -> (ret: &mut Self)
        ensures
            *final(self) == *final(ret),
            ret@ == old(self)@.with_kill_on_drop(kill_on_drop),
    {
        self.kill_on_drop = kill_on_drop;
        self
    }

    /// The part of the builder that the spawn primitive reads.
    pub fn as_std(&self) -> (command: &StdCommand)
        ensures
            command@ == self@.command,
    {
        &self.inner
    }

    /// Whether dropping the handle of the child kills the child.
    pub fn get_kill_on_drop(&self) -> (kill_on_drop: bool)
        ensures
            kill_on_drop == self@.kill_on_drop,
    {
        self.kill_on_drop
    }
}

impl TokioCommandExt for TokioCommand {
    open spec fn target(&self) -> Platform {
        self@.command.platform
    }

    open spec fn mask(&self) -> u32 {
        self@.command.creation_flags
    }

    fn hide_console_window(&mut self) -> (ret: &mut Self)
        ensures
            ret@ == old(self)@.console_hidden(),
    {
        self.inner.hide_console_window();
        self
    }
}

/// Hiding the console window a second time changes nothing.
pub proof fn lemma_tokio_hide_idempotent(cmd: TokioCommandView)
    ensures
        cmd.console_hidden().console_hidden() == cmd.console_hidden(),
{
    lemma_std_hide_idempotent(cmd.command);
}

/// Off Windows, hiding the console window leaves the builder as it was.
pub proof fn lemma_tokio_hide_noop_off_windows(cmd: TokioCommandView)
    requires
        !cmd.command.platform.reads_creation_flags(),
    ensures
        cmd.console_hidden() == cmd,
{
}

/// On Windows, hiding the console window OR-s `CREATE_NO_WINDOW` into the
/// mask and touches nothing else.
pub proof fn lemma_tokio_hide_on_windows(cmd: TokioCommandView)
    requires
        cmd.command.platform.reads_creation_flags(),
    ensures
        cmd.console_hidden() == cmd.with_creation_flags(
            cmd.command.creation_flags | CREATE_NO_WINDOW,
        ),
{
}

/// A flag that was set in the mask is still set once the console window is
/// hidden.
pub proof fn lemma_tokio_hide_keeps_flags(cmd: TokioCommandView, flag: u32)
    requires
        has_flag(cmd.command.creation_flags, flag),
    ensures
        has_flag(cmd.console_hidden().command.creation_flags, flag),
{
    lemma_std_hide_keeps_flags(cmd.command, flag);
}

/// Hiding the console window can change places with adding an argument and
/// with setting `kill_on_drop`.
pub proof fn lemma_tokio_hide_commutes(cmd: TokioCommandView, arg: Seq<char>, kill_on_drop: bool)
    ensures
        cmd.with_arg(arg).console_hidden() == cmd.console_hidden().with_arg(arg),
        cmd.with_kill_on_drop(kill_on_drop).console_hidden()
            == cmd.console_hidden().with_kill_on_drop(kill_on_drop),
{
}

/// Assigning the mask after the console window was hidden drops the flag
/// again, unless the assigned mask holds it.
pub proof fn lemma_tokio_assignment_undoes_hide(cmd: TokioCommandView, flags: u32)
    ensures
        cmd.console_hidden().with_creation_flags(flags) == cmd.with_creation_flags(flags),
{
}

} // verus!
