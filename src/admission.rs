//! The admission filter: an optional allow-list of conversation keys.
use vstd::prelude::*;
use crate::message::{
    CanonicalMessage, ErrorView, HandleError, MessageView, Normalized, NormalizedView,
};
use crate::normalize::{normalize_wacraft, normalize_waha, wacraft_outcome, waha_outcome};
use crate::webhook::{WacraftWebhook, WahaWebhook};

verus! {

/// Whether `key` may proceed: always without a list, else when the list holds it.
pub open spec fn allowed(allow: Option<Vec<String>>, key: Seq<char>) -> bool {
    match allow {
        None => true,
        Some(ids) => listed(ids@, key),
    }
}

/// Whether one of `ids` spells `key`.
pub open spec fn listed(ids: Seq<String>, key: Seq<char>) -> bool {
    exists|i: int| 0 <= i < ids.len() && (#[trigger] ids[i])@ == key
}

/// Looks `key` up in the allow-list, if one is configured.
pub fn is_allowed(allow: &Option<Vec<String>>, key: &str) -> (r: bool)
    ensures
        r == allowed(*allow, key@),
{
    match allow {
        None => true,
        Some(ids) => {
            let mut i: usize = 0;
            while i < ids.len()
                invariant
                    *allow == Some(*ids),
                    i <= ids@.len(),
                    forall|j: int| 0 <= j < i ==> (#[trigger] ids@[j])@ != key@,
                decreases ids@.len() - i,
            {
                if crate::text::same_text(ids[i].as_str(), key) {
                    assert(ids@[i as int]@ == key@);
                    return true;
                }
                i = i + 1;
            }
            false
        },
    }
}

/// The decision taken on a webhook before any outside call is made.
#[derive(Debug, Clone, PartialEq, Eq)]
pub enum Admission {
    Proceed(CanonicalMessage),
    Skip,
    Reject(HandleError),
    Drop,
}

pub enum AdmissionView {
    Proceed(MessageView),
    Skip,
    Reject(ErrorView),
    Drop,
}

impl View for Admission {
    type V = AdmissionView;

    open spec fn view(&self) -> AdmissionView {
        match self {
            Admission::Proceed(m) => AdmissionView::Proceed(m@),
            Admission::Skip => AdmissionView::Skip,
            Admission::Reject(e) => AdmissionView::Reject(e@),
            Admission::Drop => AdmissionView::Drop,
        }
    }
}

/// A normalized message proceeds unless the allow-list leaves its conversation out.
pub open spec fn admission_of(n: NormalizedView, allow: Option<Vec<String>>) -> AdmissionView {
    match n {
        NormalizedView::Message(m) => if allowed(allow, m.conversation_key) {
            AdmissionView::Proceed(m)
        } else {
            AdmissionView::Drop
        },
        NormalizedView::Skip => AdmissionView::Skip,
        NormalizedView::Reject(e) => AdmissionView::Reject(e),
    }
}

/// Applies the allow-list to a normalization outcome.
pub fn apply_allow_list(normalized: Normalized, allow: &Option<Vec<String>>) -> (r: Admission)
    ensures
        r@ == admission_of(normalized@, *allow),
        normalized matches Normalized::Message(m) && m.well_formed() ==> (r matches Admission::Proceed(p) ==> p.well_formed()),
{
    match normalized {
        Normalized::Message(m) => {
            if is_allowed(allow, m.conversation_key.as_str()) {
                Admission::Proceed(m)
            } else {
                Admission::Drop
            }
        },
        Normalized::Skip => Admission::Skip,
        Normalized::Reject(e) => Admission::Reject(e),
    }
}

/// Normalizes a WAHA webhook, then applies the allow-list.
pub fn admit_waha(webhook: &WahaWebhook, allow: &Option<Vec<String>>) -> (r: Admission)
    ensures
        r@ == admission_of(waha_outcome(*webhook), *allow),
        r matches Admission::Proceed(m) ==> m.well_formed(),
{
    apply_allow_list(normalize_waha(webhook), allow)
}

/// Normalizes a Wacraft webhook received at `now`, then applies the allow-list.
pub fn admit_wacraft(webhook: &WacraftWebhook, now: i64, allow: &Option<Vec<String>>) -> (r:
    Admission)
    ensures
        r@ == admission_of(wacraft_outcome(*webhook, now), *allow),
        r matches Admission::Proceed(m) ==> m.well_formed(),
{
    apply_allow_list(normalize_wacraft(webhook, now), allow)
}

} // verus!
