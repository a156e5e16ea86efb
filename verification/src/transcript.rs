//! The line of text that sums up what the recognition service understood.

use vstd::prelude::*;
use vstd::string::StringExecFns;

verus! {

/// One reading of an utterance, as the recognition service returns it. The
/// service lists the readings of an utterance best first.
#[derive(Debug)]
pub struct Alternative {
    /// The words that were understood.
    pub transcript: String,
    /// How sure the service is of them, already printed as text.
    pub confidence: String,
}

/// What one utterance adds to the transcript: its best reading followed by
/// that reading's confidence in brackets, or nothing where the service
/// returned no reading.
pub open spec fn utterance_text(alternatives: Seq<Alternative>) -> Seq<char> {
    if alternatives.len() > 0 {
        alternatives[0].transcript@ + " (Confidence: "@ + alternatives[0].confidence@ + ")"@
    } else {
        Seq::empty()
    }
}

/// The transcript of a run of utterances: what each adds, joined in order.
pub open spec fn transcript_text(results: Seq<Vec<Alternative>>) -> Seq<char>
    decreases results.len(),
{
    if results.len() == 0 {
        Seq::empty()
    } else {
        transcript_text(results.drop_last()) + utterance_text(results.last()@)
    }
}

/// Puts the transcript together: for every utterance with at least one
/// reading, in order, the best reading and its confidence in brackets.
pub fn transcript_of(results: &Vec<Vec<Alternative>>) -> (text: String)
    ensures
        text@ == transcript_text(results@),
{
    let mut text: String = String::new();
    let mut index: usize = 0;
    while index < results.len()
        invariant
            index <= results.len(),
            text@ == transcript_text(results@.subrange(0, index as int)),
        decreases results.len() - index,
    {
        let alternatives: &Vec<Alternative> = &results[index];
        proof {
            let seen = results@.subrange(0, index + 1);
            assert(seen.drop_last() == results@.subrange(0, index as int));
            assert(seen.last() == results@[index as int]);
        }
        if alternatives.len() > 0 {
            text.append(alternatives[0].transcript.as_str());
            text.append(" (Confidence: ");
            text.append(alternatives[0].confidence.as_str());
            text.append(")");
        }
        index = index + 1;
    }
    assert(results@.subrange(0, index as int) == results@);
    text
}

} // verus!
