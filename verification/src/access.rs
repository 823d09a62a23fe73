//! Whether the account may upload to its guild, asked step by step.
use vstd::prelude::*;

use crate::cloud;
use crate::cloud::{Affiliation, CloudClient, CloudError, Method, Request};

verus! {

pub enum AccessStage {
    /// The account's guilds were asked for.
    Listing,
    /// The guild itself was asked about.
    Asking,
    Over,
}

/// What the API answered.
pub enum AccessEvent {
    Listed(Result<Vec<Affiliation>, CloudError>),
    /// Whether the guild has moved.
    Described(Result<bool, CloudError>),
}

pub enum AccessStep {
    Call(Request),
    Finish(Result<(), CloudError>),
}

/// The check that comes before every upload.
pub struct AccessCheck {
    pub client: CloudClient,
    pub stage: AccessStage,
}

impl AccessCheck {
    pub fn start(client: CloudClient) -> (started: (AccessCheck, AccessStep))
        ensures
            started.0 == (AccessCheck { client, stage: AccessStage::Listing }),
            started.1 matches AccessStep::Call(request) && client.calls(
                request,
                Method::Get,
                client.api@ + "/user/affiliations"@,
                None,
            ),
    {
        let request = client.affiliations_request();
        (AccessCheck { client, stage: AccessStage::Listing }, AccessStep::Call(request))
    }

    /// Whether `event` answers the step of this stage.
    pub open spec fn expects(self, event: AccessEvent) -> bool {
        match self.stage {
            AccessStage::Listing => event is Listed,
            AccessStage::Asking => event is Described,
            AccessStage::Over => false,
        }
    }

    /// What follows from `event`: the guild is only asked about once the
    /// account is known to be allowed to upload to it.
    pub open spec fn follows(self, event: AccessEvent, next: AccessStage, step: AccessStep) -> bool {
        match (self.stage, event) {
            (AccessStage::Listing, AccessEvent::Listed(Ok(affiliations))) => {
                match cloud::find_affiliation(affiliations@, self.client.guild@) {
                    None => next is Over && step == AccessStep::Finish(
                        Err(CloudError::NotAffiliated(self.client.guild)),
                    ),
                    Some(affiliation) => if affiliation.write {
                        next is Asking && (step matches AccessStep::Call(request)
                            && self.client.calls(
                            request,
                            Method::Get,
                            self.client.guild_path(""@),
                            None,
                        ))
                    } else {
                        next is Over && step == AccessStep::Finish(
                            Err(CloudError::NoWritePermission(self.client.guild)),
                        )
                    },
                }
            },
            (AccessStage::Listing, AccessEvent::Listed(Err(error))) => next is Over && step
                == AccessStep::Finish(Err(error)),
            (AccessStage::Asking, AccessEvent::Described(Ok(migrated))) => next is Over && step
                == AccessStep::Finish(
                if migrated {
                    Err(CloudError::Migrated(self.client.guild))
                } else {
                    Ok(())
                },
            ),
            (AccessStage::Asking, AccessEvent::Described(Err(error))) => next is Over && step
                == AccessStep::Finish(Err(error)),
            _ => false,
        }
    }

    /// Take in what the API answered and say what to do next.
    pub fn next(self, event: AccessEvent) -> (result: (AccessCheck, AccessStep))
        requires
            self.expects(event),
        ensures
            result.0.client == self.client,
            self.follows(event, result.0.stage, result.1),
    {
        let AccessCheck { client, stage } = self;
        let (stage, step) = match (stage, event) {
            (AccessStage::Listing, AccessEvent::Listed(Ok(affiliations))) => {
                match client.check_affiliations(&affiliations) {
                    Ok(_) => (AccessStage::Asking, AccessStep::Call(client.guild_request())),
                    Err(error) => (AccessStage::Over, AccessStep::Finish(Err(error))),
                }
            },
            (AccessStage::Asking, AccessEvent::Described(Ok(migrated))) => (
                AccessStage::Over,
                AccessStep::Finish(client.check_migration(migrated)),
            ),
            (AccessStage::Listing, AccessEvent::Listed(Err(error))) => (
                AccessStage::Over,
                AccessStep::Finish(Err(error)),
            ),
            (AccessStage::Asking, AccessEvent::Described(Err(error))) => (
                AccessStage::Over,
                AccessStep::Finish(Err(error)),
            ),
            (_, _) => {
                assert(false);
                (AccessStage::Over, AccessStep::Finish(Ok(())))
            },
        };
        (AccessCheck { client, stage }, step)
    }
}

/// Access is granted only to an account that may upload to a guild that has
/// not moved.
pub proof fn only_writers_gain_access(
    listing: AccessCheck,
    asking: AccessCheck,
    affiliations: Vec<Affiliation>,
    migrated: bool,
    call: AccessStep,
    next: AccessStage,
)
    requires
        listing.stage is Listing,
        asking.client == listing.client,
        listing.follows(AccessEvent::Listed(Ok(affiliations)), asking.stage, call),
        asking.follows(
            AccessEvent::Described(Ok(migrated)),
            next,
            AccessStep::Finish(Ok(())),
        ),
    ensures
        cloud::find_affiliation(affiliations@, listing.client.guild@) matches Some(affiliation)
            && affiliation.write,
        !migrated,
{
}

} // verus!
