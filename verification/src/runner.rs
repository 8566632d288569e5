//! What a child process is given and what comes back from it.

use vstd::prelude::*;
use vstd::string::*;
use crate::error::SupervisorError;

verus! {

/// The search list that every started tunnel command gets, whatever the
/// supervisor's own environment holds.
pub const BASELINE_PATH: &'static str = "/bin:/usr/bin:/usr/local/bin:/sbin:/usr/sbin";

/// The character that separates the entries of a search path.
pub open spec fn separator() -> char {
    ':'
}

/// The entries of a search path: the stretches between separators. A path
/// without a separator is a single entry, and so is the empty path.
pub open spec fn path_entries(path: Seq<char>) -> Seq<Seq<char>>
    decreases path.len(),
{
    if path.len() == 0 {
        seq![Seq::<char>::empty()]
    } else {
        let before = path_entries(path.drop_last());
        if path.last() == separator() {
            before.push(Seq::<char>::empty())
        } else {
            before.drop_last().push(before.last().push(path.last()))
        }
    }
}

/// The entries of the baseline search list, in order.
pub open spec fn baseline_entries() -> Seq<Seq<char>> {
    seq!["/bin"@, "/usr/bin"@, "/usr/local/bin"@, "/sbin"@, "/usr/sbin"@]
}

/// The `PATH` of a started child: the baseline list, followed by the
/// inherited search path where there is one. Inherited entries are kept as
/// they are, in their order, also where they repeat a baseline entry.
pub open spec fn child_path_of(inherited: Option<Seq<char>>) -> Seq<char> {
    match inherited {
        Some(path) => BASELINE_PATH@ + seq![separator()] + path,
        None => BASELINE_PATH@,
    }
}

/// Every path has at least one entry.
pub proof fn lemma_path_entries_nonempty(path: Seq<char>)
    ensures
        path_entries(path).len() >= 1,
    decreases path.len(),
{
    if path.len() > 0 {
        lemma_path_entries_nonempty(path.drop_last());
    }
}

/// A path that holds no separator is its own single entry.
pub proof fn lemma_path_entries_single(path: Seq<char>)
    requires
        !path.contains(separator()),
    ensures
        path_entries(path) == seq![path],
    decreases path.len(),
{
    if path.len() == 0 {
        assert(path =~= Seq::<char>::empty());
    } else {
        let front = path.drop_last();
        assert forall|i: int| 0 <= i < front.len() implies front[i] != separator() by {
            assert(path[i] == front[i]);
        }
        lemma_path_entries_single(front);
        assert(path.last() == path[path.len() - 1]);
        assert(front.push(path.last()) =~= path);
        assert(path_entries(path) =~= seq![path]);
    }
}

/// Joining two paths with a separator joins their entry lists.
pub proof fn lemma_path_entries_join(left: Seq<char>, right: Seq<char>)
    ensures
        path_entries(left + seq![separator()] + right) == path_entries(left) + path_entries(right),
    decreases right.len(),
{
    let joined = left + seq![separator()] + right;
    if right.len() == 0 {
        assert(joined.drop_last() =~= left);
        assert(path_entries(joined) =~= path_entries(left) + path_entries(right));
    } else {
        let front = right.drop_last();
        lemma_path_entries_join(left, front);
        lemma_path_entries_nonempty(front);
        assert(joined.drop_last() =~= left + seq![separator()] + front);
        assert(joined.last() == right.last());
        assert(path_entries(joined) =~= path_entries(left) + path_entries(right));
    }
}

/// The baseline list is made of its five directories.
pub proof fn lemma_baseline_entries()
    ensures
        path_entries(BASELINE_PATH@) == baseline_entries(),
{
    reveal_strlit("/bin:/usr/bin:/usr/local/bin:/sbin:/usr/sbin");
    reveal_strlit("/bin");
    reveal_strlit("/usr/bin");
    reveal_strlit("/usr/local/bin");
    reveal_strlit("/sbin");
    reveal_strlit("/usr/sbin");
    let sep = seq![separator()];
    let one = "/bin"@;
    let two = one + sep + "/usr/bin"@;
    let three = two + sep + "/usr/local/bin"@;
    let four = three + sep + "/sbin"@;
    let five = four + sep + "/usr/sbin"@;
    assert(BASELINE_PATH@ =~= five);
    lemma_path_entries_single("/bin"@);
    lemma_path_entries_single("/usr/bin"@);
    lemma_path_entries_single("/usr/local/bin"@);
    lemma_path_entries_single("/sbin"@);
    lemma_path_entries_single("/usr/sbin"@);
    lemma_path_entries_join(one, "/usr/bin"@);
    lemma_path_entries_join(two, "/usr/local/bin"@);
    lemma_path_entries_join(three, "/sbin"@);
    lemma_path_entries_join(four, "/usr/sbin"@);
    assert(path_entries(five) =~= baseline_entries());
}

/// The entries of a child's `PATH` are the baseline entries followed by the
/// entries of the inherited path, none added, dropped or reordered.
pub proof fn lemma_child_path_entries(inherited: Option<Seq<char>>)
    ensures
        path_entries(child_path_of(inherited)) == baseline_entries() + match inherited {
            Some(path) => path_entries(path),
            None => Seq::<Seq<char>>::empty(),
        },
{
    lemma_baseline_entries();
    match inherited {
        Some(path) => {
            lemma_path_entries_join(BASELINE_PATH@, path);
        },
        None => {
            assert(baseline_entries() + Seq::<Seq<char>>::empty() =~= baseline_entries());
        },
    }
}

/// Builds the `PATH` for a started child from the search path that the
/// caller would otherwise hand down.
pub fn child_path(inherited: Option<&str>) -> (out: String)
    ensures
        out@ == child_path_of(
            match inherited {
                Some(path) => Some(path@),
                None => None,
            },
        ),
        path_entries(out@) == baseline_entries() + match inherited {
            Some(path) => path_entries(path@),
            None => Seq::<Seq<char>>::empty(),
        },
{
    let mut out = String::from_str(BASELINE_PATH);
    match inherited {
        Some(path) => {
            proof {
                reveal_strlit(":");
                assert(":"@ =~= seq![separator()]);
                lemma_child_path_entries(Some(path@));
            }
            out.append(":");
            out.append(path);
        },
        None => {
            proof {
                lemma_child_path_entries(None);
            }
        },
    }
    out
}

/// How one run of an external program ended.
#[derive(Debug)]
pub enum ExitOutcome {
    /// The child ran and is gone. The code is absent where the system
    /// reports none, as for a child that a signal ended.
    Exited(Option<i32>),
    /// The child could not be launched; the text says why.
    SpawnFailed(String),
}

impl ExitOutcome {
    /// Whether the child ran and exited with code zero.
    pub open spec fn is_clean(&self) -> bool {
        *self matches ExitOutcome::Exited(Some(code)) && code == 0
    }

    /// What to report after a start command ended this way. Only a failed
    /// launch is a fault: a tunnel command that exits, with whatever code,
    /// has merely ended.
    pub fn start_fault(&self) -> (out: Option<SupervisorError>)
        ensures
            out == if *self is SpawnFailed {
                Some(SupervisorError::SpawnFailed)
            } else {
                None::<SupervisorError>
            },
    {
        match self {
            ExitOutcome::SpawnFailed(_) => Some(SupervisorError::SpawnFailed),
            ExitOutcome::Exited(_) => None,
        }
    }

    /// What to report after a stop command ended this way. Anything but a
    /// clean exit is a fault, and none of them is fatal: the process to end
    /// may already be gone.
    pub fn stop_fault(&self) -> (out: Option<SupervisorError>)
        ensures
            out == if self.is_clean() {
                None::<SupervisorError>
            } else {
                Some(SupervisorError::StopCommandFailed)
            },
    {
        match self {
            ExitOutcome::Exited(Some(code)) => {
                if *code == 0 {
                    None
                } else {
                    Some(SupervisorError::StopCommandFailed)
                }
            },
            _ => Some(SupervisorError::StopCommandFailed),
        }
    }
}

} // verus!
