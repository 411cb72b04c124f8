//! The fixed layouts of the records and instruction arguments.

use vstd::prelude::*;
use crate::mpl_8004_identity::processor::{CreateArgs, RegisterV1Args};
use crate::mpl_8004_identity::state::{AgentIdentityV1, CollectionConfigV1, MyAccount, MyData, MyPdaAccount};
use crate::mpl_agent_identity::processor::RegisterIdentityV1Args;
use crate::mpl_agent_identity::state::AgentIdentityV1 as IdentityRecord;
use crate::mpl_agent_reputation::processor::RegisterReputationV1Args;
use crate::mpl_agent_reputation::state::AgentReputationV1;
use crate::mpl_agent_validation::processor::RegisterValidationV1Args;
use crate::mpl_agent_validation::state::{AgentValidationV1, CollectionValidationConfigV1};

verus! {

/// Every record is a whole number of 8-byte words, and the bytes of any
/// value of it are exactly its declared length; every argument header is
/// 8 bytes.
pub proof fn lemma_layouts_aligned(
    identity: AgentIdentityV1,
    config: CollectionConfigV1,
    account: MyAccount,
    payload: MyData,
    pda: MyPdaAccount,
    agent_identity: IdentityRecord,
    reputation: AgentReputationV1,
    validation: AgentValidationV1,
    validation_config: CollectionValidationConfigV1,
)
    ensures
        AgentIdentityV1::LEN % 8 == 0 && identity.image().len() == AgentIdentityV1::LEN,
        CollectionConfigV1::LEN % 8 == 0 && config.image().len() == CollectionConfigV1::LEN,
        MyAccount::BASE_LEN % 8 == 0 && account.image().len() == MyAccount::BASE_LEN,
        MyData::LEN % 8 == 0 && payload.image().len() == MyData::LEN,
        MyPdaAccount::BASE_LEN % 8 == 0 && pda.image().len() == MyPdaAccount::BASE_LEN,
        IdentityRecord::LEN % 8 == 0 && agent_identity.image().len() == IdentityRecord::LEN,
        AgentReputationV1::LEN % 8 == 0 && reputation.image().len() == AgentReputationV1::LEN,
        AgentValidationV1::LEN % 8 == 0 && validation.image().len() == AgentValidationV1::LEN,
        CollectionValidationConfigV1::LEN % 8 == 0
            && validation_config.image().len() == CollectionValidationConfigV1::LEN,
        CreateArgs::LEN == 8 && RegisterV1Args::LEN == 8 && RegisterIdentityV1Args::LEN == 8,
        RegisterReputationV1Args::LEN == 8 && RegisterValidationV1Args::LEN == 8,
{
}

} // verus!
