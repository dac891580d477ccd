use vstd::prelude::*;
use crate::request::{
    built, no_query, request_without_body, without_body, BuildError, BuildFault, DescriptorModel,
    Method, RequestDescriptor,
};

verus! {

/// The address that the current user is had from.
pub open spec fn user_address() -> Seq<char> {
    "https://api.pushbullet.com/v2/users/me"@
}

/// What can be done with users.
#[derive(Debug, Clone, Copy, PartialEq, Eq)]
pub enum UserCommands {
    /// Gets the currently logged in user.
    Get,
}

impl UserCommands {
    /// The request that the command stands for.
    pub open spec fn expected(&self) -> Result<DescriptorModel, BuildFault> {
        Ok(without_body(Method::Get, user_address(), Seq::empty()))
    }

    /// Builds the request.
    pub fn build_request(&self) -> (r: Result<RequestDescriptor, BuildError>)
        ensures
            built(r) == self.expected(),
    {
        Ok(
            request_without_body(
                Method::Get,
                String::from_str("https://api.pushbullet.com/v2/users/me"),
                no_query(),
            ),
        )
    }
}

} // verus!
