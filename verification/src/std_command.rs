//! The blocking command builder.

use vstd::prelude::*;
use crate::creation_flags::{
    has_flag, hidden_mask, hide_in_mask, lemma_hidden_mask_idempotent,
    lemma_hidden_mask_keeps_flags, CREATE_NO_WINDOW,
};
use crate::platform::Platform;

verus! {

/// What a blocking command builder holds, as the spawn primitive reads it.
pub struct StdCommandView {
    /// The platform the command is built for.
    pub platform: Platform,
    /// The program to run.
    pub program: Seq<char>,
    /// The arguments, in the order in which they were added.
    pub args: Seq<Seq<char>>,
    /// The creation-flags mask, which only Windows reads.
    pub creation_flags: u32,
}

impl StdCommandView {
    /// A fresh builder: no arguments, and an empty mask.
    pub open spec fn fresh(platform: Platform, program: Seq<char>) -> Self {
        StdCommandView { platform, program, args: Seq::empty(), creation_flags: 0 }
    }

    /// The builder with one more argument at the end.
    pub open spec fn with_arg(self, arg: Seq<char>) -> Self {
        StdCommandView { args: self.args.push(arg), ..self }
    }

    /// The builder with its mask replaced by `flags`.
    pub open spec fn with_creation_flags(self, flags: u32) -> Self {
        StdCommandView { creation_flags: flags, ..self }
    }

    /// The builder with its console window hidden: the mask becomes the
    /// hidden mask, and nothing else changes.
    pub open spec fn console_hidden(self) -> Self {
        StdCommandView { creation_flags: hidden_mask(self.platform, self.creation_flags), ..self }
    }
}

/// A builder for a child process that is waited for synchronously.
#[derive(Debug, PartialEq, Eq)]
pub struct StdCommand {
    platform: Platform,
    program: String,
    args: Vec<String>,
    creation_flags: u32,
}

impl View for StdCommand {
    type V = StdCommandView;

    closed spec fn view(&self) -> StdCommandView {
        StdCommandView {
            platform: self.platform,
            program: self.program@,
            args: self.args.deep_view(),
            creation_flags: self.creation_flags,
        }
    }
}

/// Hides the console window of a blocking command.
pub trait StdCommandExt: Sized {
    /// The platform the builder is for.
    spec fn target(&self) -> Platform;

    /// The creation-flags mask the builder holds.
    spec fn mask(&self) -> u32;

    /// Configures the command to not create a visible console window on
    /// Windows. On every other platform this changes nothing.
    ///
    /// The flag is OR-ed into the mask, so the flags set before stay set. A
    /// later call that assigns the mask undoes this one: hide the window
    /// after such calls.
    ///
    /// The builder itself comes back, so that calls can be chained.
    fn hide_console_window(&mut self) -> (ret: &mut Self)
        ensures
            *final(self) == *final(ret),
            ret.target() == old(self).target(),
            old(self).target().reads_creation_flags() ==> ret.mask() == old(self).mask()
                | CREATE_NO_WINDOW,
            !old(self).target().reads_creation_flags() ==> *ret == *old(self),
            forall|flag: u32| has_flag(old(self).mask(), flag) ==> #[trigger] has_flag(
                ret.mask(),
                flag,
            ),
    ;
}

impl StdCommand {
    /// A builder that runs `program` on `platform`, with no arguments and an
    /// empty creation-flags mask.
    pub fn new(platform: Platform, program: &str) -> (cmd: Self)
        ensures
            cmd@ == StdCommandView::fresh(platform, program@),
    {
        let cmd = StdCommand {
            platform,
            program: program.to_owned(),
            args: Vec::new(),
            creation_flags: 0,
        };
        assert(cmd.args.deep_view() =~= Seq::<Seq<char>>::empty());
        cmd
    }

    /// Adds an argument behind those already there.
    pub fn arg(&mut self, arg: &str) -> (ret: &mut Self)
        ensures
            *final(self) == *final(ret),
            ret@ == old(self)@.with_arg(arg@),
    {
        self.args.push(arg.to_owned());
        assert(self.args.deep_view() =~= old(self).args.deep_view().push(arg@));
        self
    }

    /// Sets the creation-flags mask to `flags`, dropping what it held.
    pub fn creation_flags(&mut self, flags: u32) -> (ret: &mut Self)
        ensures
            *final(self) == *final(ret),
            ret@ == old(self)@.with_creation_flags(flags),
    {
        self.creation_flags = flags;
        self
    }

    /// The platform the command is built for.
    pub fn get_platform(&self) -> (platform: Platform)
        ensures
            platform == self@.platform,
    {
        self.platform
    }

    /// The program to run.
    pub fn get_program(&self) -> (program: &str)
        ensures
            program@ == self@.program,
    {
        self.program.as_str()
    }

    /// The arguments, in the order in which they were added.
    pub fn get_args(&self) -> (args: &Vec<String>)
        ensures
            args.deep_view() == self@.args,
    {
        &self.args
    }

    /// The creation-flags mask.
    pub fn get_creation_flags(&self) -> (flags: u32)
        ensures
            flags == self@.creation_flags,
    {
        self.creation_flags
    }
}

impl StdCommandExt for StdCommand {
    open spec fn target(&self) -> Platform {
        self@.platform
    }

    open spec fn mask(&self) -> u32 {
        self@.creation_flags
    }

    fn hide_console_window(&mut self) -> (ret: &mut Self)
        ensures
            ret@ == old(self)@.console_hidden(),
    {
        self.creation_flags = hide_in_mask(self.platform, self.creation_flags);
        self
    }
}

/// Hiding the console window a second time changes nothing.
pub proof fn lemma_std_hide_idempotent(cmd: StdCommandView)
    ensures
        cmd.console_hidden().console_hidden() == cmd.console_hidden(),
{
    lemma_hidden_mask_idempotent(cmd.platform, cmd.creation_flags);
}

/// Off Windows, hiding the console window leaves the builder as it was.
pub proof fn lemma_std_hide_noop_off_windows(cmd: StdCommandView)
    requires
        !cmd.platform.reads_creation_flags(),
    ensures
        cmd.console_hidden() == cmd,
{
}

/// On Windows, hiding the console window OR-s `CREATE_NO_WINDOW` into the
/// mask and touches nothing else.
pub proof fn lemma_std_hide_on_windows(cmd: StdCommandView)
    requires
        cmd.platform.reads_creation_flags(),
    ensures
        cmd.console_hidden() == cmd.with_creation_flags(cmd.creation_flags | CREATE_NO_WINDOW),
{
}

/// A flag that was set in the mask is still set once the console window is
/// hidden.
pub proof fn lemma_std_hide_keeps_flags(cmd: StdCommandView, flag: u32)
    requires
        has_flag(cmd.creation_flags, flag),
    ensures
        has_flag(cmd.console_hidden().creation_flags, flag),
{
    lemma_hidden_mask_keeps_flags(cmd.platform, cmd.creation_flags, flag);
}

/// Hiding the console window and adding an argument can be done in either
/// order.
pub proof fn lemma_std_hide_commutes_with_arg(cmd: StdCommandView, arg: Seq<char>)
    ensures
        cmd.with_arg(arg).console_hidden() == cmd.console_hidden().with_arg(arg),
{
}

/// Assigning the mask after the console window was hidden drops the flag
/// again, unless the assigned mask holds it.
pub proof fn lemma_std_assignment_undoes_hide(cmd: StdCommandView, flags: u32)
    ensures
        cmd.console_hidden().with_creation_flags(flags) == cmd.with_creation_flags(flags),
{
}

} // verus!
