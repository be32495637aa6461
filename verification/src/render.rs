use vstd::prelude::*;
use vstd::string::StringExecFns;
use crate::store::{Todo, TodoList};

verus! {

/// The line shown for one item: a completion marker followed by the text.
pub open spec fn rendered_line(item: (Seq<char>, bool)) -> Seq<char> {
    (if item.1 {
        "[x] "@
    } else {
        "[ ] "@
    }) + item.0
}

/// The line for one entry, exactly as it is shown.
pub fn render_line(t: &Todo) -> (r: String)
    ensures
        r@ == rendered_line(t@),
{
    let marker = if t.completed {
        "[x] "
    } else {
        "[ ] "
    };
    let mut line = marker.to_owned();
    line.append(t.text.as_str());
    line
}

/// One line per entry, in display order: row `i` of the result shows the
/// item at index `i`.
pub fn render_lines(list: &TodoList) -> (r: Vec<String>)
    ensures
        r@.len() == list@.len(),
        forall|i: int| 0 <= i < list@.len() ==> r@[i]@ == rendered_line(list@[i]),
{
    let n = list.len();
    let mut out: Vec<String> = Vec::new();
    let mut idx: usize = 0;
    while idx < n
        invariant
            n == list@.len(),
            idx <= n,
            out@.len() == idx,
            forall|j: int| 0 <= j < idx ==> out@[j]@ == rendered_line(list@[j]),
        decreases n - idx,
    {
        let completed = match list.completed_at(idx) {
            Ok(b) => b,
            Err(_) => false,
        };
        let text = match list.text_at(idx) {
            Ok(t) => t,
            Err(_) => String::new(),
        };
        let line = render_line(&Todo { text, completed });
        out.push(line);
        idx = idx + 1;
    }
    out
}

} // verus!
