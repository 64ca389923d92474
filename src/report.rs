use vstd::prelude::*;

verus! {

/// The text of the line that reports a resolved package: `"{snap_id}: {snap_name}"`.
pub open spec fn snap_line_spec(snap_id: Seq<char>, snap_name: Seq<char>) -> Seq<char> {
    snap_id + ": "@ + snap_name
}

/// Builds the line that reports `snap_name` as the name of `snap_id`.
pub fn snap_line(snap_id: &str, snap_name: &str) -> (r: String)
    ensures
        r@ == snap_line_spec(snap_id@, snap_name@),
{
    let mut line = String::from_str(snap_id);
    line.append(": ");
    line.append(snap_name);
    proof {
        reveal_strlit(": ");
    }
    line
}

} // verus!
