use vstd::prelude::*;

use crate::errors::TraceixError;

verus! {

/// The three upload sub-calls, in the order a full upload makes them.
#[derive(Clone, Copy, Debug, PartialEq, Eq, Structural)]
pub enum UploadKind {
    Prediction,
    Capa,
    Exif,
}

/// How far a full upload has come: which sub-call it awaits, with the
/// payloads already gathered.
pub enum FullUploadState {
    AwaitingPrediction,
    AwaitingCapa { prediction: serde_json::Value },
    AwaitingExif { prediction: serde_json::Value, capa: serde_json::Value },
}

/// The outcome of feeding one sub-call's result into a full upload.
pub enum FullUploadStep {
    /// More work remains: perform the sub-call the state awaits.
    Pending(FullUploadState),
    /// All three sub-calls succeeded; the payloads stand in call order.
    Complete { prediction: serde_json::Value, capa: serde_json::Value, exif: serde_json::Value },
    /// A sub-call failed; its error propagates unchanged and nothing
    /// gathered so far is returned.
    Failed(TraceixError),
}

/// The full-upload transition: a failed sub-call aborts with that error;
/// a successful one stores its payload and moves to the next stage, and
/// after the last the three payloads come out in call order.
pub open spec fn advance_spec(
    s: FullUploadState,
    outcome: Result<serde_json::Value, TraceixError>,
) -> FullUploadStep {
    match outcome {
        Err(e) => FullUploadStep::Failed(e),
        Ok(v) => match s {
            FullUploadState::AwaitingPrediction => FullUploadStep::Pending(
                FullUploadState::AwaitingCapa { prediction: v },
            ),
            FullUploadState::AwaitingCapa { prediction } => FullUploadStep::Pending(
                FullUploadState::AwaitingExif { prediction, capa: v },
            ),
            FullUploadState::AwaitingExif { prediction, capa } => FullUploadStep::Complete {
                prediction,
                capa,
                exif: v,
            },
        },
    }
}

impl FullUploadState {
    /// Where a full upload begins: before the prediction call.
    pub fn start() -> (s: Self)
        ensures
            s == FullUploadState::AwaitingPrediction,
    {
        FullUploadState::AwaitingPrediction
    }

    /// Which sub-call this state awaits.
    pub fn pending_kind(&self) -> (k: UploadKind)
        ensures
            match self {
                FullUploadState::AwaitingPrediction => k == UploadKind::Prediction,
                FullUploadState::AwaitingCapa { .. } => k == UploadKind::Capa,
                FullUploadState::AwaitingExif { .. } => k == UploadKind::Exif,
            },
    {
        match self {
            FullUploadState::AwaitingPrediction => UploadKind::Prediction,
            FullUploadState::AwaitingCapa { .. } => UploadKind::Capa,
            FullUploadState::AwaitingExif { .. } => UploadKind::Exif,
        }
    }

    /// Feeds the awaited sub-call's outcome into the upload.
    pub fn advance(self, outcome: Result<serde_json::Value, TraceixError>) -> (step:
        FullUploadStep)
        ensures
            step == advance_spec(self, outcome),
    {
        match outcome {
            Err(e) => FullUploadStep::Failed(e),
            Ok(v) => match self {
                FullUploadState::AwaitingPrediction => FullUploadStep::Pending(
                    FullUploadState::AwaitingCapa { prediction: v },
                ),
                FullUploadState::AwaitingCapa { prediction } => FullUploadStep::Pending(
                    FullUploadState::AwaitingExif { prediction, capa: v },
                ),
                FullUploadState::AwaitingExif { prediction, capa } => FullUploadStep::Complete {
                    prediction,
                    capa,
                    exif: v,
                },
            },
        }
    }
}

/// A failed sub-call at any stage aborts the whole operation with exactly
/// that error; payloads already gathered are discarded.
pub proof fn lemma_full_upload_aborts_on_error(s: FullUploadState, e: TraceixError)
    ensures
        advance_spec(s, Err(e)) == FullUploadStep::Failed(e),
{
}

/// Three successful sub-calls from the start complete the upload, and the
/// triple holds the payloads in call order: prediction, CAPA, EXIF.
pub proof fn lemma_full_upload_order(
    p: serde_json::Value,
    c: serde_json::Value,
    x: serde_json::Value,
)
    ensures
        ({
            let s1 = advance_spec(FullUploadState::AwaitingPrediction, Ok(p));
            &&& s1 == FullUploadStep::Pending(FullUploadState::AwaitingCapa { prediction: p })
            &&& advance_spec(FullUploadState::AwaitingCapa { prediction: p }, Ok(c))
                == FullUploadStep::Pending(
                FullUploadState::AwaitingExif { prediction: p, capa: c },
            )
            &&& advance_spec(FullUploadState::AwaitingExif { prediction: p, capa: c }, Ok(x)) == (
            FullUploadStep::Complete { prediction: p, capa: c, exif: x })
        }),
{
}

} // verus!
