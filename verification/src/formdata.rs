//! The entries of a submitted form, and how a value read from the runtime's
//! form data becomes one.
//!
//! The runtime hands over each value as a handle; the caller finds out whether
//! it is a file (giving the file) and whether it is text (giving the text), and
//! the functions here decide what entry that is.

use vstd::prelude::*;

verus! {

/// One value of a form: a text field, or an uploaded file of type `F`.
#[derive(Debug)]
pub enum FormEntry<F> {
    Field(String),
    File(F),
}

/// The entry for the value stored under a name: the file when the value is a
/// file, else the text when it is text; `None` for a missing or other value.
pub fn entry_of<F>(file: Option<F>, text: Option<String>) -> (e: Option<FormEntry<F>>)
    ensures
        file matches Some(f) ==> e == Some(FormEntry::<F>::File(f)),
        file is None && text is Some ==> e == Some(FormEntry::<F>::Field(text->0)),
        file is None && text is None ==> e is None,
{
    match file {
        Some(f) => Some(FormEntry::File(f)),
        None => match text {
            Some(t) => Some(FormEntry::Field(t)),
            None => None,
        },
    }
}

/// The text stored under a name, unless the value there is a file.
pub fn field_of(is_file: bool, text: Option<String>) -> (r: Option<String>)
    ensures
        is_file ==> r is None,
        !is_file ==> r == text,
{
    if is_file {
        None
    } else {
        text
    }
}

/// One of all the values stored under a name: the file when it is a file, else
/// a field holding its text, or the empty text when it has none.
pub fn listed_entry_of<F>(file: Option<F>, text: Option<String>) -> (e: FormEntry<F>)
    ensures
        file matches Some(f) ==> e == FormEntry::<F>::File(f),
        file is None && text is Some ==> e == FormEntry::<F>::Field(text->0),
        file is None && text is None ==> (e matches FormEntry::Field(s) && s@ == Seq::<char>::empty()),
{
    match file {
        Some(f) => FormEntry::File(f),
        None => match text {
            Some(t) => FormEntry::Field(t),
            None => FormEntry::Field(String::new()),
        },
    }
}

/// Whether `e` is the entry made of one listed value.
pub open spec fn is_listed_entry<F>(value: (Option<F>, Option<String>), e: FormEntry<F>) -> bool {
    match value.0 {
        Some(f) => e == FormEntry::<F>::File(f),
        None => match value.1 {
            Some(t) => e == FormEntry::<F>::Field(t),
            None => e matches FormEntry::Field(s) && s@ == Seq::<char>::empty(),
        },
    }
}

/// All the values stored under a name, as entries in order; `None` when what
/// the form gave back is no list.
pub fn listed_entries<F>(is_list: bool, values: Vec<(Option<F>, Option<String>)>) -> (r: Option<
    Vec<FormEntry<F>>,
>)
    ensures
        !is_list ==> r is None,
        is_list ==> (r matches Some(entries) && entries@.len() == values@.len() && forall|i: int|
            0 <= i < values@.len() ==> is_listed_entry(values@[i], #[trigger] entries@[i])),
{
    if !is_list {
        return None;
    }
    let mut entries: Vec<FormEntry<F>> = Vec::new();
    let mut values = values;
    let ghost all = values@;
    let n = values.len();
    // Reverse the values, so that popping hands them out in order.
    let mut rest: Vec<(Option<F>, Option<String>)> = Vec::new();
    while values.len() > 0
        invariant
            n == all.len(),
            values@.len() + rest@.len() == n,
            values@ == all.take(values@.len() as int),
            forall|j: int| 0 <= j < rest@.len() ==> rest@[j] == all[n - 1 - j],
        decreases values@.len(),
    {
        let v = values.pop().unwrap();
        rest.push(v);
    }
    let mut i: usize = 0;
    while i < n
        invariant
            n == all.len(),
            i <= n,
            rest@.len() == n - i,
            forall|j: int| 0 <= j < rest@.len() ==> rest@[j] == all[n - 1 - j],
            entries@.len() == i,
            forall|j: int| 0 <= j < i ==> is_listed_entry(all[j], #[trigger] entries@[j]),
        decreases n - i,
    {
        let value = rest.pop().unwrap();
        assert(value == all[i as int]);
        let entry = listed_entry_of(value.0, value.1);
        entries.push(entry);
        i = i + 1;
    }
    Some(entries)
}

} // verus!
