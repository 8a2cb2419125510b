//! Configuration model: a default browser plus named rule sections.
//!
//! Loading and parsing the on-disk file is a collaborator's job; the model
//! here is what the rest of the library consumes. Sections are kept in the
//! order the loader handed them over, and matching is first-match-wins over
//! that order.

use vstd::prelude::*;

use crate::text::str_eq;

verus! {

/// A named rule group: one browser command together with the client
/// substrings and host patterns that route to it.
#[derive(Debug, Clone)]
pub struct RuleSection {
    pub browser: String,
    pub clients: Vec<String>,
    pub url: Vec<String>,
}

/// The browser used when no section matches.
#[derive(Debug, Clone)]
pub struct DefaultSection {
    pub browser: String,
}

/// A loaded configuration: the default browser plus the rule sections,
/// each under its section name.
#[derive(Debug, Clone)]
pub struct Config {
    pub default: DefaultSection,
    pub sections: Vec<(String, RuleSection)>,
}

impl RuleSection {
    /// A section is well formed when its browser command is non-empty.
    pub open spec fn wf(&self) -> bool {
        self.browser@.len() > 0
    }
}

impl Config {
    /// A configuration is well formed when the default browser and every
    /// section's browser are non-empty, and no two sections share a name.
    pub open spec fn wf(&self) -> bool {
        &&& self.default.browser@.len() > 0
        &&& forall|i: int|
            0 <= i < self.sections@.len() ==> (#[trigger] self.sections@[i].1).wf()
        &&& forall|i: int, j: int|
            #![trigger self.sections@[i].0, self.sections@[j].0]
            0 <= i < j < self.sections@.len() ==> (self.sections@[i].0)@ != (self.sections@[j].0)@
    }

    /// Whether the default browser and every section's browser are
    /// non-empty and all section names are distinct.
    pub fn is_wf(&self) -> (r: bool)
        ensures
            r == self.wf(),
    {
        if self.default.browser.as_str().unicode_len() == 0 {
            return false;
        }
        let n = self.sections.len();
        let mut i: usize = 0;
        while i < n
            invariant
                n == self.sections@.len(),
                0 <= i <= n,
                forall|k: int| 0 <= k < i ==> (#[trigger] self.sections@[k].1).wf(),
                forall|k: int, l: int|
                    #![trigger self.sections@[k].0, self.sections@[l].0]
                    0 <= k < l < n && k < i ==> (self.sections@[k].0)@ != (self.sections@[l].0)@,
            decreases n - i,
        {
            if self.sections[i].1.browser.as_str().unicode_len() == 0 {
                return false;
            }
            let mut j: usize = i + 1;
            while j < n
                invariant
                    n == self.sections@.len(),
                    0 <= i < n,
                    i < j <= n,
                    forall|l: int|
                        i < l < j ==> (self.sections@[i as int].0)@ != (#[trigger] self.sections@[l].0)@,
                decreases n - j,
            {
                if str_eq(self.sections[i].0.as_str(), self.sections[j].0.as_str()) {
                    return false;
                }
                j += 1;
            }
            i += 1;
        }
        true
    }
}

/// The browser command assumed when the configuration names none.
pub fn default_browser() -> (r: String)
    ensures
        r@ == "firefox"@,
{
    String::from_str("firefox")
}

} // verus!
