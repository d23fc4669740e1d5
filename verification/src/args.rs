//! What the command line of a sampling session holds.

use vstd::prelude::*;

verus! {

#[verifier::external_type_specification]
#[verifier::external_body]
pub struct ExPathBuf(std::path::PathBuf);

/// The arguments every threadstat front end takes: the events to count and where to write.
pub struct BaseArgs {
    /// The event lists, one or more words.
    pub events: Vec<String>,
    /// The folder the CSV files go to.
    pub output_folder: std::path::PathBuf,
}

/// The words of `parts` joined by commas.
pub open spec fn comma_joined(parts: Seq<Seq<char>>) -> Seq<char>
    decreases parts.len(),
{
    if parts.len() == 0 {
        Seq::empty()
    } else if parts.len() == 1 {
        parts[0]
    } else {
        comma_joined(parts.subrange(0, parts.len() - 1)) + seq![','] + parts[parts.len() - 1]
    }
}

/// The event words joined by commas into one event list, as `[String]::join` joins them.
pub fn join_events(events: &[String]) -> (r: String)
    ensures
        r@ == comma_joined(events@.map_values(|e: String| e@)),
{
    let mut out = String::new();
    let mut i: usize = 0;
    while i < events.len()
        invariant
            i <= events@.len(),
            out@ == comma_joined(events@.subrange(0, i as int).map_values(|e: String| e@)),
        decreases events@.len() - i,
    {
        let ghost before = out@;
        if i > 0 {
            proof {
                reveal_strlit(",");
            }
            out.append(",");
        }
        out.append(events[i].as_str());
        proof {
            let parts = events@.subrange(0, i + 1).map_values(|e: String| e@);
            assert(parts.subrange(0, i as int) =~= events@.subrange(0, i as int).map_values(
                |e: String| e@,
            ));
            if i == 0 {
                assert(out@ =~= parts[0]);
            } else {
                assert(out@ =~= comma_joined(parts.subrange(0, i as int)) + seq![','] + parts[i as int]);
            }
        }
        i = i + 1;
    }
    proof {
        assert(events@.subrange(0, events@.len() as int) =~= events@);
    }
    out
}

} // verus!
