//! How far an address may travel.
mod private;

use private::Sealed;
use std::marker::PhantomData;
use std::rc::Rc;
use vstd::prelude::*;

verus! {

/// Where an address may be used.
pub trait Scope: Sealed {

}

/// Only in the thread that it was made in. It can send anything.
pub struct Local {
    _priv: PhantomData<Rc<()>>,
}

impl Sealed for Local {

}

impl Scope for Local {

}

/// In every thread. It can only send what may be sent to another thread.
pub struct Remote {
    _priv: (),
}

impl Sealed for Remote {

}

impl Scope for Remote {

}

} // verus!
