//! The untyped form-parameter map and the Field Extractor: typed access to
//! the scalar strings and strictly binary flags a submission carries.

use vstd::prelude::*;

use crate::errors::HandleError;

verus! {

/// A submitted form value: either a scalar string, or something the pipeline
/// does not accept as one (a file, a nested list, and the like).
#[derive(Debug, PartialEq, Eq)]
pub enum FormValue {
    Text(String),
    Composite,
}

/// The scalar string that `entries` associates with `key`, if any. A later
/// binding for the same key shadows an earlier one; a key bound to a
/// non-scalar value yields `None`, exactly like an absent key.
pub open spec fn text_at(entries: Seq<(String, FormValue)>, key: Seq<char>) -> Option<Seq<char>>
    decreases entries.len(),
{
    if entries.len() == 0 {
        None
    } else if entries.last().0@ == key {
        match entries.last().1 {
            FormValue::Text(t) => Some(t@),
            FormValue::Composite => None,
        }
    } else {
        text_at(entries.drop_last(), key)
    }
}

/// An untyped form-parameter map, as the HTTP layer hands it in: a sequence
/// of bindings in which the newest binding of a key wins.
#[derive(Debug)]
pub struct FormMap {
    entries: Vec<(String, FormValue)>,
}

impl View for FormMap {
    type V = Seq<(String, FormValue)>;

    closed spec fn view(&self) -> Seq<(String, FormValue)> {
        self.entries@
    }
}

impl FormMap {
    /// An empty parameter map.
    pub fn new() -> (r: FormMap)
        ensures
            r@ == Seq::<(String, FormValue)>::empty(),
    {
        FormMap { entries: Vec::new() }
    }

    /// Bind `key` to `value`. A newer binding shadows an older one, so
    /// assigning a key twice behaves like overwriting it.
    pub fn assign(&mut self, key: &str, value: FormValue)
        ensures
            final(self)@.len() == old(self)@.len() + 1,
            final(self)@.last().0@ == key@,
            final(self)@.last().1 == value,
            final(self)@.drop_last() == old(self)@,
            text_at(final(self)@, key@) == (match value {
                FormValue::Text(t) => Some(t@),
                FormValue::Composite => None::<Seq<char>>,
            }),
            forall|k: Seq<char>|
                #![trigger text_at(final(self)@, k)]
                k != key@ ==> text_at(final(self)@, k) == text_at(old(self)@, k),
    {
        self.entries.push((key.to_owned(), value));
        proof {
            assert(self.entries@.drop_last() =~= old(self)@);
        }
    }
}

/// Field Extractor, scalar flavour: the string bound to `key`, or
/// `HandleError::FormValue` when the key is absent or not bound to a scalar
/// string.
pub fn extract_string(map: &FormMap, key: &str) -> (r: Result<String, HandleError>)
    ensures
        match r {
            Ok(v) => text_at(map@, key@) == Some(v@),
            Err(e) => e == HandleError::FormValue && text_at(map@, key@) is None,
        },
{
    let k: String = key.to_owned();
    let mut i: usize = map.entries.len();
    proof {
        assert(map@.take(i as int) =~= map@);
    }
    while i > 0
        invariant
            i <= map@.len(),
            k@ == key@,
            text_at(map@, key@) == text_at(map@.take(i as int), key@),
        decreases i,
    {
        i = i - 1;
        proof {
            assert(map@.take(i + 1).last() == map@[i as int]);
            assert(map@.take(i + 1).drop_last() =~= map@.take(i as int));
        }
        let entry = &map.entries[i];
        if entry.0 == k {
            match &entry.1 {
                FormValue::Text(t) => {
                    return Ok(t.clone());
                },
                FormValue::Composite => {
                    return Err(HandleError::FormValue);
                },
            }
        }
    }
    proof {
        assert(map@.take(0) =~= Seq::<(String, FormValue)>::empty());
    }
    Err(HandleError::FormValue)
}

/// The boolean a strictly binary field encodes: exactly `"yes"` and `"no"`
/// are recognised, with no trimming and no case folding.
pub open spec fn bool_of_text(s: Seq<char>) -> Option<bool> {
    if s == "yes"@ {
        Some(true)
    } else if s == "no"@ {
        Some(false)
    } else {
        None
    }
}

/// Field Extractor, binary flavour: `true` for `"yes"`, `false` for `"no"`,
/// and `HandleError::FormValue` for an absent field, a non-scalar value, or
/// any other literal.
pub fn extract_bool(map: &FormMap, key: &str) -> (r: Result<bool, HandleError>)
    ensures
        match r {
            Ok(b) => text_at(map@, key@) matches Some(t) && bool_of_text(t) == Some(b),
            Err(e) => e == HandleError::FormValue && (match text_at(map@, key@) {
                Some(t) => bool_of_text(t) is None,
                None => true,
            }),
        },
{
    let v = match extract_string(map, key) {
        Ok(v) => v,
        Err(e) => {
            return Err(e);
        },
    };
    if v == "yes".to_owned() {
        Ok(true)
    } else if v == "no".to_owned() {
        Ok(false)
    } else {
        Err(HandleError::FormValue)
    }
}

} // verus!
