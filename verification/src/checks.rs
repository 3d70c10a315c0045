//! Queries over a transformation's output, as the test suite uses them.
//!
//! `Invisible` is the sum-type shape the visibility tests exercise. The
//! `check_*` and `success_*` queries ask whether the output declares the
//! records those tests rely on — `success_*` additionally asks for an
//! explicit visibility, since only then can the record be reached from
//! outside its module. The `assert_*` queries ask whether a generated
//! record carries a given capability.

use vstd::prelude::*;
use vstd::string::*;
use crate::decl::{RecordDecl, SpecTransformOutput, SpecVisibility, TransformOutput};
use crate::text::str_eq;

verus! {

/// A sum type of the shape the visibility tests exercise: two variants,
/// each carrying one positional field.
pub enum Invisible {
    A(usize),
    B(usize),
}

/// Whether the output declares a record with this name.
pub open spec fn spec_has_record(o: SpecTransformOutput, name: Seq<char>) -> bool {
    exists|k: int| 0 <= k < o.records.len() && #[trigger] o.records[k].name == name
}

/// Whether the output declares a record with this name and an explicit
/// visibility.
pub open spec fn spec_has_visible_record(o: SpecTransformOutput, name: Seq<char>) -> bool {
    exists|k: int|
        0 <= k < o.records.len() && #[trigger] o.records[k].name == name && o.records[k].vis
            != SpecVisibility::Inherited
}

/// Whether the output declares a record with this name; `visible` asks in
/// addition for an explicit visibility.
fn find_record(out: &TransformOutput, name: &str, visible: bool) -> (r: bool)
    ensures
        !visible ==> r == spec_has_record(out@, name@),
        visible ==> r == spec_has_visible_record(out@, name@),
{
    let n = out.records.len();
    let mut k: usize = 0;
    while k < n
        invariant
            k <= n,
            n == out.records.len(),
            forall|m: int|
                0 <= m < k ==> !(#[trigger] out@.records[m].name == name@ && (!visible
                    || out@.records[m].vis != SpecVisibility::Inherited)),
        decreases n - k,
    {
        let rec = &out.records[k];
        proof {
            assert(out@.records[k as int] == rec.deep_view());
        }
        if str_eq(rec.name.as_str(), name) {
            let vis_ok = if visible {
                !matches!(rec.vis, crate::decl::Visibility::Inherited)
            } else {
                true
            };
            if vis_ok {
                proof {
                    assert(0 <= k < out@.records.len() && out@.records[k as int].name == name@);
                }
                return true;
            }
        }
        k = k + 1;
    }
    false
}

/// Whether the output declares the record `InvisibleA`, whatever its
/// visibility: enough for uses inside the declaring module.
pub fn check_a(out: &TransformOutput) -> (r: bool)
    ensures
        r == spec_has_record(out@, "InvisibleA"@),
{
    find_record(out, "InvisibleA", false)
}

/// Whether the output declares the record `InvisibleB`, whatever its
/// visibility.
pub fn check_b(out: &TransformOutput) -> (r: bool)
    ensures
        r == spec_has_record(out@, "InvisibleB"@),
{
    find_record(out, "InvisibleB", false)
}

/// Whether the output declares the record `InvisibleA` with an explicit
/// visibility, so that uses outside the declaring module resolve.
pub fn success_a(out: &TransformOutput) -> (r: bool)
    ensures
        r == spec_has_visible_record(out@, "InvisibleA"@),
{
    find_record(out, "InvisibleA", true)
}

/// Whether the output declares the record `InvisibleB` with an explicit
/// visibility.
pub fn success_b(out: &TransformOutput) -> (r: bool)
    ensures
        r == spec_has_visible_record(out@, "InvisibleB"@),
{
    find_record(out, "InvisibleB", true)
}

/// Whether a generated record carries this capability.
fn has_capability(rec: &RecordDecl, name: &str) -> (r: bool)
    ensures
        r == rec@.derives.contains(name@),
{
    let n = rec.derives.len();
    let mut k: usize = 0;
    while k < n
        invariant
            k <= n,
            n == rec.derives.len(),
            forall|m: int| 0 <= m < k ==> #[trigger] rec@.derives[m] != name@,
        decreases n - k,
    {
        proof {
            assert(rec@.derives[k as int] == rec.derives@[k as int]@);
        }
        if str_eq(rec.derives[k].as_str(), name) {
            proof {
                assert(rec@.derives[k as int] == name@);
            }
            return true;
        }
        k = k + 1;
    }
    proof {
        if rec@.derives.contains(name@) {
            let m = choose|m: int| 0 <= m < rec@.derives.len() && rec@.derives[m] == name@;
            assert(rec@.derives[m] != name@);
        }
    }
    false
}

/// Whether a generated record carries the `Clone` capability.
pub fn assert_clone(rec: &RecordDecl) -> (r: bool)
    ensures
        r == rec@.derives.contains("Clone"@),
{
    has_capability(rec, "Clone")
}

/// Whether a generated record carries the `Debug` capability.
pub fn assert_debug(rec: &RecordDecl) -> (r: bool)
    ensures
        r == rec@.derives.contains("Debug"@),
{
    has_capability(rec, "Debug")
}

/// Whether a generated record carries the `Default` capability.
pub fn assert_default(rec: &RecordDecl) -> (r: bool)
    ensures
        r == rec@.derives.contains("Default"@),
{
    has_capability(rec, "Default")
}

/// Whether a generated record carries the `Eq` capability.
pub fn assert_eq(rec: &RecordDecl) -> (r: bool)
    ensures
        r == rec@.derives.contains("Eq"@),
{
    has_capability(rec, "Eq")
}

/// Whether a generated record carries both the `Clone` and the `Debug`
/// capability.
pub fn assert_clone_debug(rec: &RecordDecl) -> (r: bool)
    ensures
        r == (rec@.derives.contains("Clone"@) && rec@.derives.contains("Debug"@)),
{
    let c = has_capability(rec, "Clone");
    let d = has_capability(rec, "Debug");
    c && d
}

} // verus!
