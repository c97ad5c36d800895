//! Name resolution: raw window identity to user-facing label.
//!
//! A raw identity offers up to three fields; the first available one wins:
//! application id, then window class, then the generic name, else the empty
//! string (a defensive fallback). The chosen label is then passed through the
//! override table: a first-match lookup over parallel ordered lists. A match
//! whose position has no counterpart in the replacement list fails soft and
//! keeps the original label.

use vstd::prelude::*;

verus! {

/// Ghost model of an [`OverrideTable`]: two parallel ordered lists.
#[verifier::ext_equal]
pub struct TableModel {
    pub originals: Seq<Seq<char>>,
    pub replacements: Seq<Seq<char>>,
}

/// User-configured name substitutions, loaded once at startup.
///
/// Lookup is first-match-by-equality against `original_names`, substituting
/// the name at the same position in `replacement_names`.
pub struct OverrideTable {
    pub original_names: Vec<String>,
    pub replacement_names: Vec<String>,
}

impl View for OverrideTable {
    type V = TableModel;

    open spec fn view(&self) -> TableModel {
        TableModel {
            originals: self.original_names.deep_view(),
            replacements: self.replacement_names.deep_view(),
        }
    }
}

/// First-match substitution, scanning `originals` from position `i` on.
pub open spec fn resolve_from(
    originals: Seq<Seq<char>>,
    replacements: Seq<Seq<char>>,
    name: Seq<char>,
    i: int,
) -> Seq<char>
    decreases originals.len() - i,
{
    if i < 0 || i >= originals.len() {
        name
    } else if originals[i] == name {
        if i < replacements.len() {
            replacements[i]
        } else {
            name
        }
    } else {
        resolve_from(originals, replacements, name, i + 1)
    }
}

/// The label an override table produces for `name`.
pub open spec fn resolved_name(t: TableModel, name: Seq<char>) -> Seq<char> {
    resolve_from(t.originals, t.replacements, name, 0)
}

/// Raw-identity precedence: application id, then window class, then the
/// generic name, else empty.
pub open spec fn label_of(
    app_id: Option<Seq<char>>,
    window_class: Option<Seq<char>>,
    name: Option<Seq<char>>,
) -> Seq<char> {
    match app_id {
        Some(a) => a,
        None => match window_class {
            Some(c) => c,
            None => match name {
                Some(n) => n,
                None => Seq::empty(),
            },
        },
    }
}

impl OverrideTable {
    /// A table with no substitutions: every name resolves to itself.
    pub fn empty() -> (t: OverrideTable)
        ensures
            t@.originals.len() == 0,
            t@.replacements.len() == 0,
    {
        OverrideTable { original_names: Vec::new(), replacement_names: Vec::new() }
    }

    /// Builds a table from the two parallel lists as loaded from configuration.
    pub fn new(original_names: Vec<String>, replacement_names: Vec<String>) -> (t: OverrideTable)
        ensures
            t@.originals == original_names.deep_view(),
            t@.replacements == replacement_names.deep_view(),
    {
        OverrideTable { original_names, replacement_names }
    }

    /// Applies the first matching substitution to `name`, keeping `name`
    /// where no position matches or the matching position has no replacement.
    pub fn resolve(&self, name: &String) -> (r: String)
        ensures
            r@ == resolved_name(self@, name@),
    {
        let n = self.original_names.len();
        let mut i: usize = 0;
        while i < n
            invariant
                n == self.original_names.len(),
                i <= n,
                resolved_name(self@, name@) == resolve_from(
                    self@.originals,
                    self@.replacements,
                    name@,
                    i as int,
                ),
            decreases n - i,
        {
            if self.original_names[i] == *name {
                if i < self.replacement_names.len() {
                    return self.replacement_names[i].clone();
                } else {
                    return name.clone();
                }
            }
            i = i + 1;
        }
        name.clone()
    }

    /// Resolves a full raw identity: precedence first, then the override table.
    pub fn resolve_identity(
        &self,
        app_id: &Option<String>,
        window_class: &Option<String>,
        name: &Option<String>,
    ) -> (r: String)
        ensures
            r@ == resolved_name(
                self@,
                label_of(app_id.deep_view(), window_class.deep_view(), name.deep_view()),
            ),
    {
        let label = identity_label(app_id, window_class, name);
        self.resolve(&label)
    }
}

/// Picks the user-facing label out of a raw identity by precedence:
/// application id, then window class, then the generic name, else empty.
pub fn identity_label(
    app_id: &Option<String>,
    window_class: &Option<String>,
    name: &Option<String>,
) -> (r: String)
    ensures
        r@ == label_of(app_id.deep_view(), window_class.deep_view(), name.deep_view()),
{
    match app_id {
        Some(a) => a.clone(),
        None => match window_class {
            Some(c) => c.clone(),
            None => match name {
                Some(n) => n.clone(),
                None => String::new(),
            },
        },
    }
}

} // verus!
