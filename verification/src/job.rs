//! A build job's run in the output tool: its steps one after another on
//! one screen, with a heading before each and a line saying how it
//! ended. A step that fails stops the job; when the last step succeeds
//! the job is finished. A CMake build directory's configuring, the
//! job's first step when it needs one, is noted as done once that step
//! succeeds.

use crate::text::{decimal, decimal_text};
use vstd::prelude::*;

verus! {

/// How a step's program ended.
#[derive(Clone, Debug, PartialEq, Eq)]
pub enum StepExit {
    Success,
    /// It exited with this code.
    Code(i32),
    /// A signal, by name, killed it.
    Signal(String),
}

/// A job under way.
pub struct JobRun {
    title: String,
    /// The steps not started yet.
    pending: usize,
    /// The number of the step running, counting from one.
    step: usize,
    /// The first step configures a build directory, to be noted as done
    /// once it succeeds.
    configure: bool,
}

/// What to do after a step ended.
#[derive(Clone, Debug, PartialEq, Eq)]
pub struct StepReport {
    /// Note the build directory as configured.
    pub configured: bool,
    /// What to write to the output, after the step's own.
    pub output: String,
    /// What the status bar says, if anything.
    pub status: Option<String>,
    /// Start the next step.
    pub start_next: bool,
}

/// Why a step failed, in words.
pub open spec fn why_text(exit: StepExit) -> Seq<char> {
    match exit {
        StepExit::Signal(name) => "killed by "@ + name@,
        StepExit::Code(code) => "exit code "@ + signed_text(code as int),
        StepExit::Success => Seq::empty(),
    }
}

/// An integer written in decimal, with a minus sign when negative.
pub open spec fn signed_text(n: int) -> Seq<char> {
    if n < 0 {
        "-"@ + decimal_text((-n) as nat)
    } else {
        decimal_text(n as nat)
    }
}

fn signed(n: i32) -> (text: String)
    ensures
        text@ == signed_text(n as int),
{
    if n < 0 {
        let magnitude: usize = if n == i32::MIN {
            2147483648
        } else {
            (-n) as usize
        };
        String::from_str("-").concat(decimal(magnitude).as_str())
    } else {
        decimal(n as usize)
    }
}

impl JobRun {
    /// The job's title.
    pub closed spec fn title_of(&self) -> Seq<char> {
        self.title@
    }

    /// The steps not started yet.
    pub closed spec fn pending_of(&self) -> nat {
        self.pending as nat
    }

    /// The number of the step running.
    pub closed spec fn step_of(&self) -> nat {
        self.step as nat
    }

    /// Whether the first step's configuring is still to be noted.
    pub closed spec fn configure_of(&self) -> bool {
        self.configure
    }

    /// A job titled `title` of `steps` steps, none started yet, its first
    /// configuring a build directory when `configure`.
    pub fn new(title: String, steps: usize, configure: bool) -> (job: JobRun)
        ensures
            job.title_of() == title@,
            job.pending_of() == steps,
            job.step_of() == 0,
            job.configure_of() == configure,
    {
        JobRun { title, pending: steps, step: 0, configure }
    }

    /// Start the next step, if there is one. Returns whether one starts.
    pub fn next_step(&mut self) -> (started: bool)
        requires
            old(self).step_of() < usize::MAX,
        ensures
            started == (old(self).pending_of() > 0),
            started ==> final(self).pending_of() == old(self).pending_of() - 1 && final(self).step_of()
                == old(self).step_of() + 1,
            !started ==> final(self).pending_of() == old(self).pending_of() && final(self).step_of()
                == old(self).step_of(),
            final(self).title_of() == old(self).title_of(),
            final(self).configure_of() == old(self).configure_of(),
    {
        if self.pending == 0 {
            return false;
        }
        self.pending = self.pending - 1;
        self.step = self.step + 1;
        true
    }

    /// The step running ended as `exit`: on to the next when it
    /// succeeded (the configuring noted when it was the first step), or
    /// the job finished when it was the last; when it failed the job
    /// stops, saying why.
    pub fn exited(&mut self, exit: StepExit) -> (report: StepReport)
        ensures
            final(self).title_of() == old(self).title_of(),
            final(self).step_of() == old(self).step_of(),
            exit == StepExit::Success ==> {
                &&& report.configured == (old(self).step_of() == 1 && old(self).configure_of())
                &&& final(self).configure_of() == (old(self).configure_of() && !report.configured)
                &&& final(self).pending_of() == old(self).pending_of()
                &&& report.start_next == (old(self).pending_of() > 0)
                &&& old(self).pending_of() == 0 ==> (report.output@
                    == "\u{1b}[1;32mFinished\u{1b}[0m\r\n"@ && (report.status matches Some(s) && s@
                    == old(self).title_of() + ": finished"@))
                &&& old(self).pending_of() > 0 ==> report.output@ == "\r\n"@ && report.status is None
            },
            exit != StepExit::Success ==> {
                &&& !report.configured
                &&& !report.start_next
                &&& final(self).pending_of() == 0
                &&& !final(self).configure_of()
                &&& report.output@ == "\u{1b}[1;31mFailed: "@ + why_text(exit) + "\u{1b}[0m\r\n"@
                &&& report.status matches Some(s) && s@ == old(self).title_of() + ": failed with "@
                    + why_text(exit)
            },
    {
        match exit {
            StepExit::Success => {
                let configured = self.step == 1 && self.configure;
                if configured {
                    self.configure = false;
                }
                if self.pending == 0 {
                    StepReport {
                        configured,
                        output: String::from_str("\u{1b}[1;32mFinished\u{1b}[0m\r\n"),
                        status: Some(self.title.clone().concat(": finished")),
                        start_next: false,
                    }
                } else {
                    StepReport {
                        configured,
                        output: String::from_str("\r\n"),
                        status: None,
                        start_next: true,
                    }
                }
            },
            _ => {
                let why = match &exit {
                    StepExit::Signal(name) => String::from_str("killed by ").concat(name.as_str()),
                    StepExit::Code(code) => String::from_str("exit code ").concat(
                        signed(*code).as_str(),
                    ),
                    StepExit::Success => String::new(),
                };
                self.pending = 0;
                self.configure = false;
                let mut output = String::from_str("\u{1b}[1;31mFailed: ");
                output.append(why.as_str());
                output.append("\u{1b}[0m\r\n");
                let mut status = self.title.clone();
                status.append(": failed with ");
                status.append(why.as_str());
                StepReport { configured: false, output, status: Some(status), start_next: false }
            },
        }
    }

    /// A step's program couldn't start: the job stops. Returns the line
    /// for the output and what the status bar says.
    pub fn start_failed(&mut self, program: &str, error: &str) -> (said: (String, String))
        ensures
            final(self).pending_of() == 0,
            said.1@ == "Could not start "@ + program@ + ": "@ + error@,
            said.0@ == "\u{1b}[1;31m"@ + said.1@ + "\u{1b}[0m\r\n"@,
    {
        self.pending = 0;
        let mut message = String::from_str("Could not start ");
        message.append(program);
        message.append(": ");
        message.append(error);
        let mut line = String::from_str("\u{1b}[1;31m");
        line.append(message.as_str());
        line.append("\u{1b}[0m\r\n");
        (line, message)
    }
}

/// The heading written before a step: what it does, in bold, and the
/// command it runs, dimmed, after a `$`.
pub fn step_heading(description: &str, command: &str) -> (heading: String)
    ensures
        heading@ == "\u{1b}[1m"@ + description@ + "\u{1b}[0m\r\n\u{1b}[2m$ "@ + command@
            + "\u{1b}[0m\r\n"@,
{
    let mut heading = String::from_str("\u{1b}[1m");
    heading.append(description);
    heading.append("\u{1b}[0m\r\n\u{1b}[2m$ ");
    heading.append(command);
    heading.append("\u{1b}[0m\r\n");
    heading
}

} // verus!
