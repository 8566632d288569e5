//! Command definitions: what to run to bring a tunnel up and to tear it down.

use vstd::prelude::*;

verus! {

/// The strings of a vector, each taken by its view.
pub open spec fn strings_view(v: Seq<String>) -> Seq<Seq<char>> {
    Seq::new(v.len(), |i: int| v[i]@)
}

/// Copies a vector of strings.
pub fn clone_strings(v: &Vec<String>) -> (out: Vec<String>)
    ensures
        strings_view(out@) == strings_view(v@),
{
    let mut out: Vec<String> = Vec::new();
    let mut i: usize = 0;
    while i < v.len()
        invariant
            i <= v.len(),
            out.len() == i,
            forall|j: int| 0 <= j < i ==> out[j]@ == v[j]@,
        decreases v.len() - i,
    {
        out.push(v[i].clone());
        i += 1;
    }
    assert(strings_view(out@) =~= strings_view(v@));
    out
}

/// One run of an external program, as plain values.
pub struct InvocationView {
    pub program: Seq<char>,
    pub args: Seq<Seq<char>>,
    pub path: Option<Seq<char>>,
}

/// One run of an external program: the program, its arguments, and the
/// `PATH` the child gets. With `path` absent the child inherits the caller's
/// environment unchanged.
#[derive(Debug)]
pub struct Invocation {
    pub program: String,
    pub args: Vec<String>,
    pub path: Option<String>,
}

impl View for Invocation {
    type V = InvocationView;

    open spec fn view(&self) -> InvocationView {
        InvocationView {
            program: self.program@,
            args: strings_view(self.args@),
            path: match self.path {
                Some(p) => Some(p@),
                None => None,
            },
        }
    }
}

/// A tunnel's configuration as plain values.
pub struct TunnelCommandView {
    pub command: Seq<char>,
    pub args: Seq<Seq<char>>,
    pub kill_command: Seq<char>,
    pub kill_args: Seq<Seq<char>>,
}

impl TunnelCommandView {
    /// The run that establishes the tunnel, with the child's `PATH` set to `path`.
    pub open spec fn start(self, path: Seq<char>) -> InvocationView {
        InvocationView { program: self.command, args: self.args, path: Some(path) }
    }

    /// The run that tears the tunnel down, in the caller's own environment.
    pub open spec fn stop(self) -> InvocationView {
        InvocationView { program: self.kill_command, args: self.kill_args, path: None }
    }
}

/// Configuration of one tunnel: the command that establishes it and the
/// command that tears it down. The two are independent; neither refers to a
/// running process.
#[derive(Debug)]
pub struct TunnelCommand {
    pub command: String,
    pub args: Vec<String>,
    pub kill_command: String,
    pub kill_args: Vec<String>,
}

impl View for TunnelCommand {
    type V = TunnelCommandView;

    open spec fn view(&self) -> TunnelCommandView {
        TunnelCommandView {
            command: self.command@,
            args: strings_view(self.args@),
            kill_command: self.kill_command@,
            kill_args: strings_view(self.kill_args@),
        }
    }
}

impl Clone for TunnelCommand {
    fn clone(&self) -> (out: Self)
        ensures
            out@ == self@,
    {
        TunnelCommand {
            command: self.command.clone(),
            args: clone_strings(&self.args),
            kill_command: self.kill_command.clone(),
            kill_args: clone_strings(&self.kill_args),
        }
    }
}

impl TunnelCommand {
    /// The run that establishes the tunnel, with the child's `PATH` set to `path`.
    pub fn start_invocation(&self, path: String) -> (out: Invocation)
        ensures
            out@ == self@.start(path@),
    {
        Invocation {
            program: self.command.clone(),
            args: clone_strings(&self.args),
            path: Some(path),
        }
    }

    /// The run that tears the tunnel down.
    pub fn stop_invocation(&self) -> (out: Invocation)
        ensures
            out@ == self@.stop(),
    {
        Invocation {
            program: self.kill_command.clone(),
            args: clone_strings(&self.kill_args),
            path: None,
        }
    }
}

} // verus!
