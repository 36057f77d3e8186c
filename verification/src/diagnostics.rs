//! The diagnostics sink: fatal setup failures are surfaced to the user and
//! recorded, and execution continues ("report and continue" policy).

use vstd::prelude::*;
use vstd::slice::slice_to_vec;

verus! {

/// Records every fatal-setup message in the order it was reported.
///
/// Presentation is a blocking modal dialog, which is the outer program's
/// job; the sink models that channel as the list of reported messages.
/// Reporting never halts anything by itself: each call site decides whether
/// to continue degraded or shut down.
pub struct DiagnosticsSink {
    pub messages: Vec<Vec<u8>>,
}

impl View for DiagnosticsSink {
    type V = Seq<Seq<u8>>;

    open spec fn view(&self) -> Seq<Seq<u8>> {
        self.messages.deep_view()
    }
}

impl DiagnosticsSink {
    /// A sink with nothing reported yet.
    pub fn new() -> (r: DiagnosticsSink)
        ensures
            r@ =~= Seq::<Seq<u8>>::empty(),
    {
        DiagnosticsSink { messages: Vec::new() }
    }

    /// Surface one fatal message: it is appended after everything reported
    /// before it, and nothing already reported is lost.
    pub fn report_fatal(&mut self, message: &[u8])
        ensures
            final(self)@ =~= old(self)@.push(message@),
    {
        self.messages.push(slice_to_vec(message));
        proof {
            assert(self.messages.deep_view() =~~= old(self).messages.deep_view().push(
                message@,
            ));
        }
    }

    /// How many messages have been reported so far.
    pub fn count(&self) -> (r: usize)
        ensures
            r == self@.len(),
    {
        self.messages.len()
    }
}

} // verus!
