use vstd::prelude::*;

verus! {

/// The entry point of the user routes.
#[derive(Clone, Copy, PartialEq, Eq, Debug, Structural)]
pub struct UserController;

impl UserController {
    pub fn new() -> (controller: UserController)
        ensures
            controller == UserController,
    {
        UserController {  }
    }
}

impl Default for UserController {
    fn default() -> (controller: UserController)
        ensures
            controller == UserController,
    {
        Self::new()
    }
}

} // verus!
