//! The top-level controller that owns the batch and menu services.
use vstd::prelude::*;

verus! {

/// Holds the batch service `B` and the menu service `C`.
#[derive(Debug)]
pub struct MainController<B, C> {
    batch_service: B,
    cli_service: C,
}

impl<B, C> MainController<B, C> {
    /// A controller over the two services.
    pub fn new(batch_service: B, cli_service: C) -> (res: Self)
        ensures
            res.spec_batch_service() == batch_service,
            res.spec_cli_service() == cli_service,
    {
        MainController { batch_service, cli_service }
    }

    /// The batch service.
    pub closed spec fn spec_batch_service(&self) -> B {
        self.batch_service
    }

    /// The menu service.
    pub closed spec fn spec_cli_service(&self) -> C {
        self.cli_service
    }

    /// The batch service.
    pub fn batch_service(&self) -> (res: &B)
        ensures
            *res == self.spec_batch_service(),
    {
        &self.batch_service
    }

    /// The menu service.
    pub fn cli_service(&self) -> (res: &C)
        ensures
            *res == self.spec_cli_service(),
    {
        &self.cli_service
    }

    /// The controller's main task. It performs no step yet and always
    /// finishes successfully.
    pub fn main_task(&self) -> (res: Result<(), String>)
        ensures
            res is Ok,
    {
        Ok(())
    }
}

} // verus!
