//! What can go wrong with a capability.

use vstd::prelude::*;

use crate::failure::{FailureView, McpCallProofFailure};

verus! {

/// Why a capability was not issued, or was used in vain.
#[derive(Debug)]
pub enum QualificationError {
    Invalid,
    Unauthorized,
    Expired,
    Internal,
    Call(McpCallProofFailure),
}

/// What a [`QualificationError`] says.
pub enum QualificationErrorView {
    Invalid,
    Unauthorized,
    Expired,
    Internal,
    Call(FailureView),
}

impl View for QualificationError {
    type V = QualificationErrorView;

    open spec fn view(&self) -> QualificationErrorView {
        match self {
            QualificationError::Invalid => QualificationErrorView::Invalid,
            QualificationError::Unauthorized => QualificationErrorView::Unauthorized,
            QualificationError::Expired => QualificationErrorView::Expired,
            QualificationError::Internal => QualificationErrorView::Internal,
            QualificationError::Call(error) => QualificationErrorView::Call(error@),
        }
    }
}

/// What an operation on capabilities came to.
pub open spec fn verdict<T: View>(result: Result<T, QualificationError>) -> Result<
    T::V,
    QualificationErrorView,
> {
    match result {
        Ok(value) => Ok(value@),
        Err(error) => Err(error@),
    }
}

} // verus!
