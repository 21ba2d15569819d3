use vstd::prelude::*;

verus! {

/// Failures of the TCR API that callers are expected to match on.
#[derive(Debug)]
pub enum TcrApiError {
    /// A named field was absent from the data being read.
    FieldMissing(String),
}

impl TcrApiError {
    /// The human-readable text of this failure.
    pub open spec fn message(&self) -> Seq<char> {
        match self {
            TcrApiError::FieldMissing(field) => "Missing field: "@ + field@,
        }
    }

    /// Renders the failure as `Missing field: <name>`.
    pub fn render(&self) -> (r: String)
        ensures
            r@ == self.message(),
    {
        match self {
            TcrApiError::FieldMissing(field) => {
                let mut out = String::from_str("Missing field: ");
                out.append(field.as_str());
                out
            },
        }
    }
}

impl Clone for TcrApiError {
    fn clone(&self) -> (r: Self)
        ensures
            r == *self,
    {
        match self {
            TcrApiError::FieldMissing(field) => TcrApiError::FieldMissing(field.clone()),
        }
    }
}

impl PartialEq for TcrApiError {
    fn eq(&self, other: &TcrApiError) -> (r: bool) {
        let TcrApiError::FieldMissing(a) = self;
        let TcrApiError::FieldMissing(b) = other;
        a.eq(b)
    }
}

impl vstd::std_specs::cmp::PartialEqSpecImpl for TcrApiError {
    open spec fn obeys_eq_spec() -> bool {
        true
    }

    open spec fn eq_spec(&self, other: &TcrApiError) -> bool {
        match (self, other) {
            (TcrApiError::FieldMissing(a), TcrApiError::FieldMissing(b)) => a@ == b@,
        }
    }
}

impl Eq for TcrApiError {

}

} // verus!
