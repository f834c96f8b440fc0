use vstd::prelude::*;

verus! {

/// Who sent a request. It takes no part in the job's identity.
pub struct ClientInfo {
    pub client_address: String,
    pub vault_address: String,
    pub timestamp: i64,
}

/// The three closed ranges of a request, each as `(lower, upper)`.
#[derive(Clone, Copy, Debug)]
pub struct PitchLakeJobRequestParams {
    pub twap: (i64, i64),
    pub volatility: (i64, i64),
    pub reserve_price: (i64, i64),
}

/// A request for a pricing computation.
pub struct PitchLakeJobRequest {
    pub identifiers: Vec<String>,
    pub params: PitchLakeJobRequestParams,
    pub client_info: ClientInfo,
}

/// The identifiers of a request, as character sequences in their order.
pub open spec fn identifiers_view(ids: &Vec<String>) -> Seq<Seq<char>> {
    ids@.map_values(|s: String| s@)
}

impl PitchLakeJobRequest {
    pub open spec fn identifiers_spec(&self) -> Seq<Seq<char>> {
        identifiers_view(&self.identifiers)
    }
}

} // verus!
