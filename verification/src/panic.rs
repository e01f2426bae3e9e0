//! Information about panicked tasks, and how it is printed.

use vstd::prelude::*;
use crate::thread::name_or_unnamed_spec;

verus! {

/// The payload a task panicked with, as far as it can be printed.
pub enum PanicPayload {
    /// A panic with a string message (`&'static str` or `String`).
    Message(String),
    /// The panics of the tasks of a scope the task waited for, re-thrown by the scope.
    Panics(TaskPanics),
    /// Any other payload, which is not printed.
    Other,
}

/// Contains some information about a single panicked task.
pub struct TaskPanicInfo {
    /// The payload with which the panic was invoked.
    pub panic: PanicPayload,
    /// Name of the task which panicked (if any).
    pub task: Option<String>,
    /// Name of the scope whose task has panicked (if any).
    pub scope: Option<String>,
}

impl TaskPanicInfo {
    /// Creates the information about a task which panicked with `panic`.
    pub fn new(panic: PanicPayload, task: Option<String>, scope: Option<String>) -> (info: Self)
        ensures
            info == (TaskPanicInfo { panic, task, scope }),
    {
        TaskPanicInfo { panic, task, scope }
    }

    /// Prints the panic information (indented by one tab), recursing over panicked children
    /// tasks, if any.
    pub fn to_string(&self) -> (s: String)
        ensures
            s@ == fmt_panic_info_spec(*self, 1),
    {
        fmt_panic_info(self, 1)
    }
}

/// The non-empty list of [`TaskPanicInfo`]'s for all panics which occured in the tasks
/// associated with a scope, and in all their children tasks, most recent first.
pub struct TaskPanics(Vec<TaskPanicInfo>);

impl View for TaskPanics {
    type V = Seq<TaskPanicInfo>;

    closed spec fn view(&self) -> Seq<TaskPanicInfo> {
        self.0@
    }
}

impl TaskPanics {
    /// Creates the list of `panics`, which may not be empty.
    pub fn new(panics: Vec<TaskPanicInfo>) -> (p: Self)
        requires
            panics@.len() > 0,
        ensures
            p@ == panics@,
    {
        TaskPanics(panics)
    }

    /// Returns references to the panics in the list, in order.
    pub fn iter(&self) -> (panics: Vec<&TaskPanicInfo>)
        ensures
            panics@.len() == self@.len(),
            forall|i: int| 0 <= i < panics@.len() ==> *panics@[i] == self@[i],
    {
        let mut panics: Vec<&TaskPanicInfo> = Vec::new();
        let len: usize = self.0.len();
        let mut i: usize = 0;
        while i < len
            invariant
                len == self@.len(),
                i <= len,
                panics@.len() == i,
                forall|j: int| 0 <= j < i ==> *panics@[j] == self@[j],
            decreases len - i,
        {
            panics.push(&self.0[i]);
            i = i + 1;
        }
        panics
    }

    /// Returns an iterator which pops and returns the panics from the list, in order.
    pub fn into_iter(self) -> (it: TaskPanicsIntoIter)
        ensures
            it@ == self@,
    {
        let mut rev: Vec<TaskPanicInfo> = Vec::new();
        let mut panics: Vec<TaskPanicInfo> = self.0;
        let ghost all = panics@;
        while panics.len() > 0
            invariant
                panics@.len() + rev@.len() == all.len(),
                forall|j: int| 0 <= j < panics@.len() ==> panics@[j] == all[j],
                forall|j: int| 0 <= j < rev@.len() ==> rev@[j] == all[all.len() - 1 - j],
            decreases panics@.len(),
        {
            let p = panics.pop().unwrap();
            rev.push(p);
        }
        let it = TaskPanicsIntoIter(rev);
        proof {
            assert(it@ =~= all);
        }
        it
    }

    /// Prints the panics list, recursing over panicked children tasks, if any.
    pub fn to_string(&self) -> (s: String)
        ensures
            s@ == fmt_panics_spec(self@, 0),
    {
        fmt_panics(self, 0)
    }
}

/// Pops and returns the panics of a [`TaskPanics`] list, in order.
pub struct TaskPanicsIntoIter(Vec<TaskPanicInfo>);

impl View for TaskPanicsIntoIter {
    type V = Seq<TaskPanicInfo>;

    /// The panics not yet returned, in order.
    closed spec fn view(&self) -> Seq<TaskPanicInfo> {
        self.0@.reverse()
    }
}

impl TaskPanicsIntoIter {
    /// Pops and returns the next panic, if any.
    pub fn next(&mut self) -> (info: Option<TaskPanicInfo>)
        ensures
            old(self)@.len() == 0 ==> info.is_none() && final(self)@ == old(self)@,
            old(self)@.len() > 0 ==> info == Some(old(self)@[0]) && final(self)@ == old(self)@.drop_first(),
    {
        let r = self.0.pop();
        proof {
            if old(self).0@.len() > 0 {
                assert(final(self)@ =~= old(self)@.drop_first());
            }
        }
        r
    }
}

/// `n` tab characters.
pub open spec fn tabs(n: nat) -> Seq<char> {
    Seq::new(n, |i: int| '\t')
}

/// One more level of indentation (saturating at the largest indentation).
pub open spec fn deeper(indent: usize) -> usize {
    if indent < usize::MAX { (indent + 1) as usize } else { indent }
}

/// The text of `panics`, each indented by `indent` tabs, concatenated in order.
pub open spec fn fmt_panics_spec(panics: Seq<TaskPanicInfo>, indent: usize) -> Seq<char>
    decreases panics,
{
    if panics.len() == 0 {
        seq![]
    } else {
        fmt_panic_info_spec(panics[0], indent) + fmt_panics_spec(panics.subrange(1, panics.len() as int), indent)
    }
}

/// The text of a panic: `indent` tabs, then ``task `<task name>` (scope `<scope name>`) panicked``
/// (`<unnamed>` for a missing name), then the text of its payload.
pub open spec fn fmt_panic_info_spec(info: TaskPanicInfo, indent: usize) -> Seq<char>
    decreases info,
{
    tabs(indent as nat) + "task `"@ + name_or_unnamed_spec(info.task) + "` (scope `"@
        + name_or_unnamed_spec(info.scope) + "`) panicked"@ + fmt_panic_spec(info.panic, indent)
}

/// The text of a panic payload printed after its task: a message in quotes,
/// or the nested panics from a new line, one tab further indented; nothing otherwise.
pub open spec fn fmt_panic_spec(panic: PanicPayload, indent: usize) -> Seq<char>
    decreases panic,
{
    match panic {
        PanicPayload::Message(m) => ": \""@ + m@ + "\""@,
        PanicPayload::Panics(p) => ":\n"@ + fmt_panics_spec(p@, deeper(indent)),
        PanicPayload::Other => seq![],
    }
}

/// Appends `indent` tabs to `s`.
fn push_tabs(s: &mut String, indent: usize)
    ensures
        final(s)@ == old(s)@ + tabs(indent as nat),
{
    let mut i: usize = 0;
    while i < indent
        invariant
            i <= indent,
            s@ == old(s)@ + tabs(i as nat),
        decreases indent - i,
    {
        proof {
            reveal_strlit("\t");
        }
        s.append("\t");
        i = i + 1;
        proof {
            assert(s@ =~= old(s)@ + tabs(i as nat));
        }
    }
}

/// Prints the panics list with indentation, recursing over panicked children tasks, if any.
pub fn fmt_panics(panics: &TaskPanics, indent: usize) -> (s: String)
    ensures
        s@ == fmt_panics_spec(panics@, indent),
    decreases panics, 2nat,
{
    let mut s: String = String::new();
    let len: usize = panics.0.len();
    let mut i: usize = 0;
    proof {
        assert(panics.0@.subrange(0, len as int) =~= panics.0@);
    }
    while i < len
        invariant
            len == panics.0@.len(),
            i <= len,
            s@ + fmt_panics_spec(panics.0@.subrange(i as int, len as int), indent)
                == fmt_panics_spec(panics.0@, indent),
        decreases len - i,
    {
        let ghost rest = panics.0@.subrange(i as int, len as int);
        proof {
            assert(rest[0] == panics.0@[i as int]);
            assert(rest.subrange(1, rest.len() as int) =~= panics.0@.subrange(i + 1, len as int));
            assert(decreases_to!(panics => panics.0@[i as int]));
        }
        let part: String = fmt_panic_info(&panics.0[i], indent);
        s.append(part.as_str());
        i = i + 1;
    }
    proof {
        assert(panics.0@.subrange(len as int, len as int) =~= Seq::<TaskPanicInfo>::empty());
    }
    s
}

/// Prints the panic information with indentation, recursing over panicked children tasks, if any.
pub fn fmt_panic_info(panic: &TaskPanicInfo, indent: usize) -> (s: String)
    ensures
        s@ == fmt_panic_info_spec(*panic, indent),
    decreases panic, 1nat,
{
    let task: &str = match &panic.task {
        Some(name) => name.as_str(),
        None => "<unnamed>",
    };
    let scope: &str = match &panic.scope {
        Some(name) => name.as_str(),
        None => "<unnamed>",
    };
    let mut s: String = String::new();
    push_tabs(&mut s, indent);
    s.append("task `");
    s.append(task);
    s.append("` (scope `");
    s.append(scope);
    s.append("`) panicked");
    let rest: String = fmt_panic(&panic.panic, indent);
    s.append(rest.as_str());
    s
}

/// Prints the panic payload, if it is printable (a string message, or nested task panics),
/// with indentation, recursing over panicked children tasks, if any.
pub fn fmt_panic(panic: &PanicPayload, indent: usize) -> (s: String)
    ensures
        s@ == fmt_panic_spec(*panic, indent),
    decreases panic, 0nat,
{
    let mut s: String = String::new();
    match panic {
        PanicPayload::Message(msg) => {
            s.append(": \"");
            s.append(msg.as_str());
            s.append("\"");
        },
        PanicPayload::Panics(panics) => {
            s.append(":\n");
            let nested: String = fmt_panics(panics, indent.saturating_add(1));
            s.append(nested.as_str());
        },
        PanicPayload::Other => {},
    }
    s
}

/// Each panic's text begins at its own indentation: `indent` tabs, then "task `" (so a panic
/// printed on its own, by [`TaskPanicInfo::to_string`], begins with one tab).
pub proof fn lemma_panic_info_indented(info: TaskPanicInfo, indent: usize)
    ensures
        (tabs(indent as nat) + "task `"@).is_prefix_of(fmt_panic_info_spec(info, indent)),
{
    let pre = tabs(indent as nat) + "task `"@;
    let rest = name_or_unnamed_spec(info.task) + "` (scope `"@ + name_or_unnamed_spec(info.scope)
        + "`) panicked"@ + fmt_panic_spec(info.panic, indent);
    let s = fmt_panic_info_spec(info, indent);
    assert(s =~= pre + rest);
    assert(pre =~= s.subrange(0, pre.len() as int));
}

/// The nested panics of a payload are printed from a new line, one tab deeper than the panic
/// that carries them: at indentation `indent` the payload's text is ":\n" followed by its
/// panics at indentation `indent + 1`, so the first of them begins with `indent + 1` tabs.
/// A message is printed in quotes, at any indentation.
pub proof fn lemma_nested_panics_one_tab_deeper(p: TaskPanics, m: String, indent: usize)
    requires
        indent < usize::MAX,
        p@.len() > 0,
    ensures
        fmt_panic_spec(PanicPayload::Panics(p), indent) == ":\n"@ + fmt_panics_spec(p@, (indent + 1) as usize),
        (":\n"@ + tabs((indent + 1) as nat) + "task `"@).is_prefix_of(fmt_panic_spec(PanicPayload::Panics(p), indent)),
        fmt_panic_spec(PanicPayload::Message(m), indent) == ": \""@ + m@ + "\""@,
{
    let j = (indent + 1) as usize;
    let first = fmt_panic_info_spec(p@[0], j);
    let others = fmt_panics_spec(p@.subrange(1, p@.len() as int), j);
    lemma_panic_info_indented(p@[0], j);
    let pre = tabs(j as nat) + "task `"@;
    let info_rest = first.subrange(pre.len() as int, first.len() as int);
    assert(first =~= pre + info_rest);
    let s = fmt_panic_spec(PanicPayload::Panics(p), indent);
    assert(fmt_panics_spec(p@, j) == first + others);
    let whole = ":\n"@ + pre;
    assert(s =~= whole + (info_rest + others));
    assert(whole =~= s.subrange(0, whole.len() as int));
    assert(":\n"@ + tabs((indent + 1) as nat) + "task `"@ =~= whole);
}

} // verus!
