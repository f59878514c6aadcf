//! Backend-agnostic introspection of a running virtual machine.
//!
//! [`init`] constructs a backend for a domain and hands it back behind the
//! capability interface of [`api`]. This build holds the testing backend
//! alone; [`select`] states the selection policy for every build, and
//! [`capi`] the rules of the foreign boundary.

use vstd::prelude::*;
use crate::api::{DriverError, DriverInitParam, DriverType, Exchange, Introspectable, Registers};
use crate::driver::dummy::{answers, Dummy};
use crate::select::{plan_of, Compiled, InitError};

pub mod api;
pub mod capi;
pub mod driver;
pub mod select;

verus! {

/// An owned backend, reached through the capability interface alone. Where
/// `D` is left out the variant of the backend is not part of the type.
pub struct Microvmi<D: ?Sized + Introspectable = dyn Introspectable> {
    driver: Box<D>,
}

impl<D: ?Sized + Introspectable> Microvmi<D> {
    /// Takes ownership of a constructed backend: what is asked of the result
    /// is asked of `driver`.
    pub fn new(driver: Box<D>) -> (vmi: Microvmi<D>)
        ensures
            vmi.kind() == driver.kind(),
            forall|exchange: Exchange| #[trigger] vmi.allows(exchange) == driver.allows(exchange),
    {
        Microvmi { driver }
    }
}

impl<D: ?Sized + Introspectable> Introspectable for Microvmi<D> {
    closed spec fn kind(&self) -> DriverType {
        self.driver.kind()
    }

    closed spec fn allows(&self, exchange: Exchange) -> bool {
        self.driver.allows(exchange)
    }

    fn read_physical(&self, paddr: u64, buf: &mut [u8]) -> (res: Result<(), DriverError>) {
        self.driver.read_physical(paddr, buf)
    }

    fn get_max_physical_addr(&self) -> (res: Result<u64, DriverError>) {
        self.driver.get_max_physical_addr()
    }

    fn pause(&mut self) -> (res: Result<(), DriverError>) {
        self.driver.pause()
    }

    fn resume(&mut self) -> (res: Result<(), DriverError>) {
        self.driver.resume()
    }

    fn read_registers(&self, vcpu: u16) -> (res: Result<Registers, DriverError>) {
        self.driver.read_registers(vcpu)
    }
}

/// The backend that a payload is tagged for, if there is a payload.
pub open spec fn tagged_for(init_param: Option<DriverInitParam>) -> Option<DriverType> {
    match init_param {
        Some(param) => Some(param.target()),
        None => None,
    }
}

/// Whether this build can serve a construction request.
pub open spec fn init_accepts(
    driver_type: Option<DriverType>,
    init_param: Option<DriverInitParam>,
) -> bool {
    plan_of(Compiled::minimal(), driver_type, tagged_for(init_param)) is Ok
}

/// The reason why this build cannot serve a construction request, or `None`
/// where it can.
pub fn refusal(driver_type: Option<DriverType>, init_param: &Option<DriverInitParam>) -> (reason:
    Option<InitError>)
    ensures
        reason is None <==> init_accepts(driver_type, *init_param),
        reason matches Some(e) ==> plan_of(
            Compiled::minimal(),
            driver_type,
            tagged_for(*init_param),
        ) == Err::<Seq<crate::select::Attempt>, InitError>(e),
{
    let tagged = match init_param {
        Some(param) => Some(param.driver_type()),
        None => None,
    };
    match crate::select::plan(&Compiled::testing_only(), driver_type, tagged) {
        Ok(_) => None,
        Err(e) => Some(e),
    }
}

/// Constructs a backend for the domain `domain_name`.
///
/// With `driver_type` given, the backend is of that variant. Without it, the
/// backends of the build are probed in their order of precedence; in this
/// build that is the testing backend, which accepts every domain.
pub fn init(
    domain_name: &str,
    driver_type: Option<DriverType>,
    init_param: Option<DriverInitParam>,
) -> (vmi: Microvmi)
    requires
        init_accepts(driver_type, init_param),
    ensures
        vmi.kind() == DriverType::Dummy,
        forall|exchange: Exchange| #[trigger] vmi.allows(exchange) == answers(exchange),
{
    // the variant is erased where the backend is boxed, while its type is known
    let driver: Box<dyn Introspectable> = Box::new(Dummy::new(domain_name));
    let vmi = Microvmi::new(driver);
    vmi
}

/// This build serves a request exactly when it names no backend, or names
/// the testing backend and brings no payload.
pub proof fn lemma_init_accepts(driver_type: Option<DriverType>, init_param: Option<DriverInitParam>)
    ensures
        init_accepts(driver_type, init_param) <==> (driver_type is None || (driver_type == Some(
            DriverType::Dummy,
        ) && init_param is None)),
{
}

} // verus!
