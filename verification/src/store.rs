use vstd::prelude::*;

verus! {

/// A single to-do entry: its text and whether it has been completed.
pub struct Todo {
    pub text: String,
    pub completed: bool,
}

impl View for Todo {
    type V = (Seq<char>, bool);

    open spec fn view(&self) -> (Seq<char>, bool) {
        (self.text@, self.completed)
    }
}

impl Todo {
    /// A fresh entry starts out not completed.
    pub fn new(text: String) -> (t: Todo)
        ensures
            t@ == (text@, false),
    {
        Todo { text, completed: false }
    }

    /// Flip the completion flag; the text is untouched.
    pub fn toggle(&mut self)
        ensures
            final(self).text@ == old(self).text@,
            final(self).completed == !old(self).completed,
    {
        self.completed = !self.completed;
    }
}

/// The only domain error: an index (or a cursor row mapped to an index)
/// falls outside the list's bounds.
#[derive(Clone, Copy, PartialEq, Eq, Structural, Debug)]
pub struct OutOfRange;

/// Relies on `String::push` from std: appends the given character
/// to the end of the string.
pub assume_specification[ String::push ](s: &mut String, ch: char)
    ensures
        final(s)@ == old(s)@.push(ch),
;

/// Relies on `String::pop` from std: removes the last character and
/// returns it, or returns `None` when the string is empty.
pub assume_specification[ String::pop ](s: &mut String) -> (r: Option<char>)
    ensures
        old(s)@.len() == 0 ==> r is None && final(s)@ == old(s)@,
        old(s)@.len() > 0 ==> r == Some(old(s)@.last()) && final(s)@ == old(s)@.drop_last(),
;

/// The items after flipping the completion flag at index `i`.
pub open spec fn toggled(s: Seq<(Seq<char>, bool)>, i: int) -> Seq<(Seq<char>, bool)> {
    s.update(i, (s[i].0, !s[i].1))
}

/// The items after appending character `c` to the text at index `i`.
pub open spec fn with_char(s: Seq<(Seq<char>, bool)>, i: int, c: char) -> Seq<
    (Seq<char>, bool),
> {
    s.update(i, (s[i].0.push(c), s[i].1))
}

/// The items after dropping the last character of the text at index `i`;
/// empty text is left as it is.
pub open spec fn without_last_char(s: Seq<(Seq<char>, bool)>, i: int) -> Seq<
    (Seq<char>, bool),
> {
    if s[i].0.len() == 0 {
        s
    } else {
        s.update(i, (s[i].0.drop_last(), s[i].1))
    }
}

/// An ordered list of to-do entries; the order of insertion is the
/// display order, and indices run without gaps from 0 to the length.
pub struct TodoList {
    items: Vec<Todo>,
}

impl View for TodoList {
    type V = Seq<(Seq<char>, bool)>;

    closed spec fn view(&self) -> Seq<(Seq<char>, bool)> {
        self.items@.map_values(|t: Todo| t@)
    }
}

impl TodoList {
    /// The list starts empty.
    pub fn new() -> (l: TodoList)
        ensures
            l@ == Seq::<(Seq<char>, bool)>::empty(),
    {
        let l = TodoList { items: Vec::new() };
        proof {
            assert(l@ =~= Seq::<(Seq<char>, bool)>::empty());
        }
        l
    }

    pub fn len(&self) -> (n: usize)
        ensures
            n == self@.len(),
    {
        self.items.len()
    }

    /// Append a new, not yet completed entry; its index is returned.
    pub fn add(&mut self, text: String) -> (i: usize)
        ensures
            final(self)@ == old(self)@.push((text@, false)),
            i == old(self)@.len(),
    {
        let t = Todo { text, completed: false };
        let ghost tv = t@;
        self.items.push(t);
        proof {
            assert(final(self)@ =~= old(self)@.push(tv));
        }
        self.items.len() - 1
    }

    /// Delete the entry at `i`, shifting the later entries down by one;
    /// an index at or past the end is rejected.
    pub fn remove(&mut self, i: usize) -> (r: Result<(), OutOfRange>)
        ensures
            i < old(self)@.len() ==> r == Ok::<(), OutOfRange>(()) && final(self)@ == old(
                self,
            )@.remove(i as int),
            i >= old(self)@.len() ==> r == Err::<(), OutOfRange>(OutOfRange) && final(self)@
                == old(self)@,
    {
        if i < self.items.len() {
            self.items.remove(i);
            proof {
                assert(final(self)@ =~= old(self)@.remove(i as int));
            }
            Ok(())
        } else {
            Err(OutOfRange)
        }
    }

    /// Flip the completion flag of the entry at `i`;
    /// an index at or past the end is rejected.
    pub fn toggle(&mut self, i: usize) -> (r: Result<(), OutOfRange>)
        ensures
            i < old(self)@.len() ==> r == Ok::<(), OutOfRange>(()) && final(self)@ == toggled(
                old(self)@,
                i as int,
            ),
            i >= old(self)@.len() ==> r == Err::<(), OutOfRange>(OutOfRange) && final(self)@
                == old(self)@,
    {
        if i < self.items.len() {
            let item = &mut self.items[i];
            item.toggle();
            proof {
                assert(final(self)@ =~= toggled(old(self)@, i as int));
            }
            Ok(())
        } else {
            Err(OutOfRange)
        }
    }

    /// Append a character to the text of the entry at `i`;
    /// an index at or past the end is rejected.
    pub fn append_char(&mut self, i: usize, c: char) -> (r: Result<(), OutOfRange>)
        ensures
            i < old(self)@.len() ==> r == Ok::<(), OutOfRange>(()) && final(self)@ == with_char(
                old(self)@,
                i as int,
                c,
            ),
            i >= old(self)@.len() ==> r == Err::<(), OutOfRange>(OutOfRange) && final(self)@
                == old(self)@,
    {
        if i < self.items.len() {
            let item = &mut self.items[i];
            item.text.push(c);
            proof {
                assert(final(self)@ =~= with_char(old(self)@, i as int, c));
            }
            Ok(())
        } else {
            Err(OutOfRange)
        }
    }

    /// Drop the last character of the text of the entry at `i`; on empty
    /// text this is a no-op, not an error. An index at or past the end
    /// is rejected.
    pub fn pop_char(&mut self, i: usize) -> (r: Result<(), OutOfRange>)
        ensures
            i < old(self)@.len() ==> r == Ok::<(), OutOfRange>(()) && final(self)@
                == without_last_char(old(self)@, i as int),
            i >= old(self)@.len() ==> r == Err::<(), OutOfRange>(OutOfRange) && final(self)@
                == old(self)@,
    {
        if i < self.items.len() {
            let item = &mut self.items[i];
            let _ = item.text.pop();
            proof {
                assert(final(self)@ =~= without_last_char(old(self)@, i as int));
            }
            Ok(())
        } else {
            Err(OutOfRange)
        }
    }

    /// A copy of the text of the entry at `i`.
    pub fn text_at(&self, i: usize) -> (r: Result<String, OutOfRange>)
        ensures
            i < self@.len() ==> (r matches Ok(t) && t@ == self@[i as int].0),
            i >= self@.len() ==> r == Err::<String, OutOfRange>(OutOfRange),
    {
        if i < self.items.len() {
            Ok(self.items[i].text.clone())
        } else {
            Err(OutOfRange)
        }
    }

    /// The completion flag of the entry at `i`.
    pub fn completed_at(&self, i: usize) -> (r: Result<bool, OutOfRange>)
        ensures
            i < self@.len() ==> r == Ok::<bool, OutOfRange>(self@[i as int].1),
            i >= self@.len() ==> r == Err::<bool, OutOfRange>(OutOfRange),
    {
        if i < self.items.len() {
            Ok(self.items[i].completed)
        } else {
            Err(OutOfRange)
        }
    }
}

/// Law: toggling the same valid index twice restores the items exactly.
pub proof fn lemma_toggle_involution(s: Seq<(Seq<char>, bool)>, i: int)
    requires
        0 <= i < s.len(),
    ensures
        toggled(toggled(s, i), i) == s,
{
    assert(toggled(toggled(s, i), i) =~~= s);
}

/// Law: removing index `i` drops exactly one item and keeps the relative
/// order of all the others: those before `i` stay in place, those after
/// it shift down by one.
pub proof fn lemma_remove_keeps_order(s: Seq<(Seq<char>, bool)>, i: int)
    requires
        0 <= i < s.len(),
    ensures
        s.remove(i).len() == s.len() - 1,
        forall|j: int| 0 <= j < i ==> #[trigger] s.remove(i)[j] == s[j],
        forall|j: int| i <= j < s.len() - 1 ==> #[trigger] s.remove(i)[j] == s[j + 1],
{
    s.remove_ensures(i);
}

/// Law: appending a character at a valid index and then popping one at
/// the same index restores the items exactly.
pub proof fn lemma_append_pop_roundtrip(s: Seq<(Seq<char>, bool)>, i: int, c: char)
    requires
        0 <= i < s.len(),
    ensures
        without_last_char(with_char(s, i, c), i) == s,
{
    assert(without_last_char(with_char(s, i, c), i) =~~= s);
}

} // verus!
