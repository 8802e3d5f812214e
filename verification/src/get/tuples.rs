//! Retrieval through several views at once: a tuple of views is itself a
//! view of the storages behind them, for up to ten storages. The impls
//! differ in their length alone.

use vstd::prelude::*;
use crate::entity::key::Key;
use crate::error::MissingComponent;
use crate::get::Get;

verus! {

impl<A: Get> Get for (A,) {
    type Out = (A::Out,);

    type FastOut = (A::FastOut,);

    open spec fn wf(&self) -> bool {
        &&& self.0.wf()
    }

    open spec fn has(&self, entity: Key) -> bool {
        &&& self.0.has(entity)
    }

    open spec fn missing(&self, entity: Key) -> MissingComponent {
        self.0.missing(entity)
    }

    open spec fn yields(&self, entity: Key, out: Self::Out) -> bool {
        &&& self.0.yields(entity, out.0)
    }

    open spec fn fast_yields(&self, entity: Key, out: Self::FastOut) -> bool {
        &&& self.0.fast_yields(entity, out.0)
    }

    fn get(self, entity: Key) -> (found: Result<Self::Out, MissingComponent>) {
        let a = match self.0.get(entity) {
            Ok(out) => out,
            Err(error) => {
                return Err(error);
            },
        };
        Ok((a,))
    }

    fn fast_get(self, entity: Key) -> (found: Result<Self::FastOut, MissingComponent>) {
        let a = match self.0.fast_get(entity) {
            Ok(out) => out,
            Err(error) => {
                return Err(error);
            },
        };
        Ok((a,))
    }
}

impl<A: Get, B: Get> Get for (A, B) {
    type Out = (A::Out, B::Out);

    type FastOut = (A::FastOut, B::FastOut);

    open spec fn wf(&self) -> bool {
        &&& self.0.wf()
        &&& self.1.wf()
    }

    open spec fn has(&self, entity: Key) -> bool {
        &&& self.0.has(entity)
        &&& self.1.has(entity)
    }

    open spec fn missing(&self, entity: Key) -> MissingComponent {
        if !self.0.has(entity) {
            self.0.missing(entity)
        } else {
            self.1.missing(entity)
        }
    }

    open spec fn yields(&self, entity: Key, out: Self::Out) -> bool {
        &&& self.0.yields(entity, out.0)
        &&& self.1.yields(entity, out.1)
    }

    open spec fn fast_yields(&self, entity: Key, out: Self::FastOut) -> bool {
        &&& self.0.fast_yields(entity, out.0)
        &&& self.1.fast_yields(entity, out.1)
    }

    fn get(self, entity: Key) -> (found: Result<Self::Out, MissingComponent>) {
        let a = match self.0.get(entity) {
            Ok(out) => out,
            Err(error) => {
                return Err(error);
            },
        };
        let b = match self.1.get(entity) {
            Ok(out) => out,
            Err(error) => {
                return Err(error);
            },
        };
        Ok((a, b))
    }

    fn fast_get(self, entity: Key) -> (found: Result<Self::FastOut, MissingComponent>) {
        let a = match self.0.fast_get(entity) {
            Ok(out) => out,
            Err(error) => {
                return Err(error);
            },
        };
        let b = match self.1.fast_get(entity) {
            Ok(out) => out,
            Err(error) => {
                return Err(error);
            },
        };
        Ok((a, b))
    }
}

impl<A: Get, B: Get, C: Get> Get for (A, B, C) {
    type Out = (A::Out, B::Out, C::Out);

    type FastOut = (A::FastOut, B::FastOut, C::FastOut);

    open spec fn wf(&self) -> bool {
        &&& self.0.wf()
        &&& self.1.wf()
        &&& self.2.wf()
    }

    open spec fn has(&self, entity: Key) -> bool {
        &&& self.0.has(entity)
        &&& self.1.has(entity)
        &&& self.2.has(entity)
    }

    open spec fn missing(&self, entity: Key) -> MissingComponent {
        if !self.0.has(entity) {
            self.0.missing(entity)
        } else if !self.1.has(entity) {
            self.1.missing(entity)
        } else {
            self.2.missing(entity)
        }
    }

    open spec fn yields(&self, entity: Key, out: Self::Out) -> bool {
        &&& self.0.yields(entity, out.0)
        &&& self.1.yields(entity, out.1)
        &&& self.2.yields(entity, out.2)
    }

    open spec fn fast_yields(&self, entity: Key, out: Self::FastOut) -> bool {
        &&& self.0.fast_yields(entity, out.0)
        &&& self.1.fast_yields(entity, out.1)
        &&& self.2.fast_yields(entity, out.2)
    }

    fn get(self, entity: Key) -> (found: Result<Self::Out, MissingComponent>) {
        let a = match self.0.get(entity) {
            Ok(out) => out,
            Err(error) => {
                return Err(error);
            },
        };
        let b = match self.1.get(entity) {
            Ok(out) => out,
            Err(error) => {
                return Err(error);
            },
        };
        let c = match self.2.get(entity) {
            Ok(out) => out,
            Err(error) => {
                return Err(error);
            },
        };
        Ok((a, b, c))
    }

    fn fast_get(self, entity: Key) -> (found: Result<Self::FastOut, MissingComponent>) {
        let a = match self.0.fast_get(entity) {
            Ok(out) => out,
            Err(error) => {
                return Err(error);
            },
        };
        let b = match self.1.fast_get(entity) {
            Ok(out) => out,
            Err(error) => {
                return Err(error);
            },
        };
        let c = match self.2.fast_get(entity) {
            Ok(out) => out,
            Err(error) => {
                return Err(error);
            },
        };
        Ok((a, b, c))
    }
}

impl<A: Get, B: Get, C: Get, D: Get> Get for (A, B, C, D) {
    type Out = (A::Out, B::Out, C::Out, D::Out);

    type FastOut = (A::FastOut, B::FastOut, C::FastOut, D::FastOut);

    open spec fn wf(&self) -> bool {
        &&& self.0.wf()
        &&& self.1.wf()
        &&& self.2.wf()
        &&& self.3.wf()
    }

    open spec fn has(&self, entity: Key) -> bool {
        &&& self.0.has(entity)
        &&& self.1.has(entity)
        &&& self.2.has(entity)
        &&& self.3.has(entity)
    }

    open spec fn missing(&self, entity: Key) -> MissingComponent {
        if !self.0.has(entity) {
            self.0.missing(entity)
        } else if !self.1.has(entity) {
            self.1.missing(entity)
        } else if !self.2.has(entity) {
            self.2.missing(entity)
        } else {
            self.3.missing(entity)
        }
    }

    open spec fn yields(&self, entity: Key, out: Self::Out) -> bool {
        &&& self.0.yields(entity, out.0)
        &&& self.1.yields(entity, out.1)
        &&& self.2.yields(entity, out.2)
        &&& self.3.yields(entity, out.3)
    }

    open spec fn fast_yields(&self, entity: Key, out: Self::FastOut) -> bool {
        &&& self.0.fast_yields(entity, out.0)
        &&& self.1.fast_yields(entity, out.1)
        &&& self.2.fast_yields(entity, out.2)
        &&& self.3.fast_yields(entity, out.3)
    }

    fn get(self, entity: Key) -> (found: Result<Self::Out, MissingComponent>) {
        let a = match self.0.get(entity) {
            Ok(out) => out,
            Err(error) => {
                return Err(error);
            },
        };
        let b = match self.1.get(entity) {
            Ok(out) => out,
            Err(error) => {
                return Err(error);
            },
        };
        let c = match self.2.get(entity) {
            Ok(out) => out,
            Err(error) => {
                return Err(error);
            },
        };
        let d = match self.3.get(entity) {
            Ok(out) => out,
            Err(error) => {
                return Err(error);
            },
        };
        Ok((a, b, c, d))
    }

    fn fast_get(self, entity: Key) -> (found: Result<Self::FastOut, MissingComponent>) {
        let a = match self.0.fast_get(entity) {
            Ok(out) => out,
            Err(error) => {
                return Err(error);
            },
        };
        let b = match self.1.fast_get(entity) {
            Ok(out) => out,
            Err(error) => {
                return Err(error);
            },
        };
        let c = match self.2.fast_get(entity) {
            Ok(out) => out,
            Err(error) => {
                return Err(error);
            },
        };
        let d = match self.3.fast_get(entity) {
            Ok(out) => out,
            Err(error) => {
                return Err(error);
            },
        };
        Ok((a, b, c, d))
    }
}

impl<A: Get, B: Get, C: Get, D: Get, E: Get> Get for (A, B, C, D, E) {
    type Out = (A::Out, B::Out, C::Out, D::Out, E::Out);

    type FastOut = (A::FastOut, B::FastOut, C::FastOut, D::FastOut, E::FastOut);

    open spec fn wf(&self) -> bool {
        &&& self.0.wf()
        &&& self.1.wf()
        &&& self.2.wf()
        &&& self.3.wf()
        &&& self.4.wf()
    }

    open spec fn has(&self, entity: Key) -> bool {
        &&& self.0.has(entity)
        &&& self.1.has(entity)
        &&& self.2.has(entity)
        &&& self.3.has(entity)
        &&& self.4.has(entity)
    }

    open spec fn missing(&self, entity: Key) -> MissingComponent {
        if !self.0.has(entity) {
            self.0.missing(entity)
        } else if !self.1.has(entity) {
            self.1.missing(entity)
        } else if !self.2.has(entity) {
            self.2.missing(entity)
        } else if !self.3.has(entity) {
            self.3.missing(entity)
        } else {
            self.4.missing(entity)
        }
    }

    open spec fn yields(&self, entity: Key, out: Self::Out) -> bool {
        &&& self.0.yields(entity, out.0)
        &&& self.1.yields(entity, out.1)
        &&& self.2.yields(entity, out.2)
        &&& self.3.yields(entity, out.3)
        &&& self.4.yields(entity, out.4)
    }

    open spec fn fast_yields(&self, entity: Key, out: Self::FastOut) -> bool {
        &&& self.0.fast_yields(entity, out.0)
        &&& self.1.fast_yields(entity, out.1)
        &&& self.2.fast_yields(entity, out.2)
        &&& self.3.fast_yields(entity, out.3)
        &&& self.4.fast_yields(entity, out.4)
    }

    fn get(self, entity: Key) -> (found: Result<Self::Out, MissingComponent>) {
        let a = match self.0.get(entity) {
            Ok(out) => out,
            Err(error) => {
                return Err(error);
            },
        };
        let b = match self.1.get(entity) {
            Ok(out) => out,
            Err(error) => {
                return Err(error);
            },
        };
        let c = match self.2.get(entity) {
            Ok(out) => out,
            Err(error) => {
                return Err(error);
            },
        };
        let d = match self.3.get(entity) {
            Ok(out) => out,
            Err(error) => {
                return Err(error);
            },
        };
        let e = match self.4.get(entity) {
            Ok(out) => out,
            Err(error) => {
                return Err(error);
            },
        };
        Ok((a, b, c, d, e))
    }

    fn fast_get(self, entity: Key) -> (found: Result<Self::FastOut, MissingComponent>) {
        let a = match self.0.fast_get(entity) {
            Ok(out) => out,
            Err(error) => {
                return Err(error);
            },
        };
        let b = match self.1.fast_get(entity) {
            Ok(out) => out,
            Err(error) => {
                return Err(error);
            },
        };
        let c = match self.2.fast_get(entity) {
            Ok(out) => out,
            Err(error) => {
                return Err(error);
            },
        };
        let d = match self.3.fast_get(entity) {
            Ok(out) => out,
            Err(error) => {
                return Err(error);
            },
        };
        let e = match self.4.fast_get(entity) {
            Ok(out) => out,
            Err(error) => {
                return Err(error);
            },
        };
        Ok((a, b, c, d, e))
    }
}

impl<A: Get, B: Get, C: Get, D: Get, E: Get, F: Get> Get for (A, B, C, D, E, F) {
    type Out = (A::Out, B::Out, C::Out, D::Out, E::Out, F::Out);

    type FastOut = (A::FastOut, B::FastOut, C::FastOut, D::FastOut, E::FastOut, F::FastOut);

    open spec fn wf(&self) -> bool {
        &&& self.0.wf()
        &&& self.1.wf()
        &&& self.2.wf()
        &&& self.3.wf()
        &&& self.4.wf()
        &&& self.5.wf()
    }

    open spec fn has(&self, entity: Key) -> bool {
        &&& self.0.has(entity)
        &&& self.1.has(entity)
        &&& self.2.has(entity)
        &&& self.3.has(entity)
        &&& self.4.has(entity)
        &&& self.5.has(entity)
    }

    open spec fn missing(&self, entity: Key) -> MissingComponent {
        if !self.0.has(entity) {
            self.0.missing(entity)
        } else if !self.1.has(entity) {
            self.1.missing(entity)
        } else if !self.2.has(entity) {
            self.2.missing(entity)
        } else if !self.3.has(entity) {
            self.3.missing(entity)
        } else if !self.4.has(entity) {
            self.4.missing(entity)
        } else {
            self.5.missing(entity)
        }
    }

    open spec fn yields(&self, entity: Key, out: Self::Out) -> bool {
        &&& self.0.yields(entity, out.0)
        &&& self.1.yields(entity, out.1)
        &&& self.2.yields(entity, out.2)
        &&& self.3.yields(entity, out.3)
        &&& self.4.yields(entity, out.4)
        &&& self.5.yields(entity, out.5)
    }

    open spec fn fast_yields(&self, entity: Key, out: Self::FastOut) -> bool {
        &&& self.0.fast_yields(entity, out.0)
        &&& self.1.fast_yields(entity, out.1)
        &&& self.2.fast_yields(entity, out.2)
        &&& self.3.fast_yields(entity, out.3)
        &&& self.4.fast_yields(entity, out.4)
        &&& self.5.fast_yields(entity, out.5)
    }

    fn get(self, entity: Key) -> (found: Result<Self::Out, MissingComponent>) {
        let a = match self.0.get(entity) {
            Ok(out) => out,
            Err(error) => {
                return Err(error);
            },
        };
        let b = match self.1.get(entity) {
            Ok(out) => out,
            Err(error) => {
                return Err(error);
            },
        };
        let c = match self.2.get(entity) {
            Ok(out) => out,
            Err(error) => {
                return Err(error);
            },
        };
        let d = match self.3.get(entity) {
            Ok(out) => out,
            Err(error) => {
                return Err(error);
            },
        };
        let e = match self.4.get(entity) {
            Ok(out) => out,
            Err(error) => {
                return Err(error);
            },
        };
        let f = match self.5.get(entity) {
            Ok(out) => out,
            Err(error) => {
                return Err(error);
            },
        };
        Ok((a, b, c, d, e, f))
    }

    fn fast_get(self, entity: Key) -> (found: Result<Self::FastOut, MissingComponent>) {
        let a = match self.0.fast_get(entity) {
            Ok(out) => out,
            Err(error) => {
                return Err(error);
            },
        };
        let b = match self.1.fast_get(entity) {
            Ok(out) => out,
            Err(error) => {
                return Err(error);
            },
        };
        let c = match self.2.fast_get(entity) {
            Ok(out) => out,
            Err(error) => {
                return Err(error);
            },
        };
        let d = match self.3.fast_get(entity) {
            Ok(out) => out,
            Err(error) => {
                return Err(error);
            },
        };
        let e = match self.4.fast_get(entity) {
            Ok(out) => out,
            Err(error) => {
                return Err(error);
            },
        };
        let f = match self.5.fast_get(entity) {
            Ok(out) => out,
            Err(error) => {
                return Err(error);
            },
        };
        Ok((a, b, c, d, e, f))
    }
}

impl<A: Get, B: Get, C: Get, D: Get, E: Get, F: Get, G: Get> Get for (A, B, C, D, E, F, G) {
    type Out = (A::Out, B::Out, C::Out, D::Out, E::Out, F::Out, G::Out);

    type FastOut = (
        A::FastOut,
        B::FastOut,
        C::FastOut,
        D::FastOut,
        E::FastOut,
        F::FastOut,
        G::FastOut,
    );

    open spec fn wf(&self) -> bool {
        &&& self.0.wf()
        &&& self.1.wf()
        &&& self.2.wf()
        &&& self.3.wf()
        &&& self.4.wf()
        &&& self.5.wf()
        &&& self.6.wf()
    }

    open spec fn has(&self, entity: Key) -> bool {
        &&& self.0.has(entity)
        &&& self.1.has(entity)
        &&& self.2.has(entity)
        &&& self.3.has(entity)
        &&& self.4.has(entity)
        &&& self.5.has(entity)
        &&& self.6.has(entity)
    }

    open spec fn missing(&self, entity: Key) -> MissingComponent {
        if !self.0.has(entity) {
            self.0.missing(entity)
        } else if !self.1.has(entity) {
            self.1.missing(entity)
        } else if !self.2.has(entity) {
            self.2.missing(entity)
        } else if !self.3.has(entity) {
            self.3.missing(entity)
        } else if !self.4.has(entity) {
            self.4.missing(entity)
        } else if !self.5.has(entity) {
            self.5.missing(entity)
        } else {
            self.6.missing(entity)
        }
    }

    open spec fn yields(&self, entity: Key, out: Self::Out) -> bool {
        &&& self.0.yields(entity, out.0)
        &&& self.1.yields(entity, out.1)
        &&& self.2.yields(entity, out.2)
        &&& self.3.yields(entity, out.3)
        &&& self.4.yields(entity, out.4)
        &&& self.5.yields(entity, out.5)
        &&& self.6.yields(entity, out.6)
    }

    open spec fn fast_yields(&self, entity: Key, out: Self::FastOut) -> bool {
        &&& self.0.fast_yields(entity, out.0)
        &&& self.1.fast_yields(entity, out.1)
        &&& self.2.fast_yields(entity, out.2)
        &&& self.3.fast_yields(entity, out.3)
        &&& self.4.fast_yields(entity, out.4)
        &&& self.5.fast_yields(entity, out.5)
        &&& self.6.fast_yields(entity, out.6)
    }

    fn get(self, entity: Key) -> (found: Result<Self::Out, MissingComponent>) {
        let a = match self.0.get(entity) {
            Ok(out) => out,
            Err(error) => {
                return Err(error);
            },
        };
        let b = match self.1.get(entity) {
            Ok(out) => out,
            Err(error) => {
                return Err(error);
            },
        };
        let c = match self.2.get(entity) {
            Ok(out) => out,
            Err(error) => {
                return Err(error);
            },
        };
        let d = match self.3.get(entity) {
            Ok(out) => out,
            Err(error) => {
                return Err(error);
            },
        };
        let e = match self.4.get(entity) {
            Ok(out) => out,
            Err(error) => {
                return Err(error);
            },
        };
        let f = match self.5.get(entity) {
            Ok(out) => out,
            Err(error) => {
                return Err(error);
            },
        };
        let g = match self.6.get(entity) {
            Ok(out) => out,
            Err(error) => {
                return Err(error);
            },
        };
        Ok((a, b, c, d, e, f, g))
    }

    fn fast_get(self, entity: Key) -> (found: Result<Self::FastOut, MissingComponent>) {
        let a = match self.0.fast_get(entity) {
            Ok(out) => out,
            Err(error) => {
                return Err(error);
            },
        };
        let b = match self.1.fast_get(entity) {
            Ok(out) => out,
            Err(error) => {
                return Err(error);
            },
        };
        let c = match self.2.fast_get(entity) {
            Ok(out) => out,
            Err(error) => {
                return Err(error);
            },
        };
        let d = match self.3.fast_get(entity) {
            Ok(out) => out,
            Err(error) => {
                return Err(error);
            },
        };
        let e = match self.4.fast_get(entity) {
            Ok(out) => out,
            Err(error) => {
                return Err(error);
            },
        };
        let f = match self.5.fast_get(entity) {
            Ok(out) => out,
            Err(error) => {
                return Err(error);
            },
        };
        let g = match self.6.fast_get(entity) {
            Ok(out) => out,
            Err(error) => {
                return Err(error);
            },
        };
        Ok((a, b, c, d, e, f, g))
    }
}

impl<A, B, C, D, E, F, G, H> Get for (A, B, C, D, E, F, G, H) where
    A: Get,
    B: Get,
    C: Get,
    D: Get,
    E: Get,
    F: Get,
    G: Get,
    H: Get,
{
    type Out = (A::Out, B::Out, C::Out, D::Out, E::Out, F::Out, G::Out, H::Out);

    type FastOut = (
        A::FastOut,
        B::FastOut,
        C::FastOut,
        D::FastOut,
        E::FastOut,
        F::FastOut,
        G::FastOut,
        H::FastOut,
    );

    open spec fn wf(&self) -> bool {
        &&& self.0.wf()
        &&& self.1.wf()
        &&& self.2.wf()
        &&& self.3.wf()
        &&& self.4.wf()
        &&& self.5.wf()
        &&& self.6.wf()
        &&& self.7.wf()
    }

    open spec fn has(&self, entity: Key) -> bool {
        &&& self.0.has(entity)
        &&& self.1.has(entity)
        &&& self.2.has(entity)
        &&& self.3.has(entity)
        &&& self.4.has(entity)
        &&& self.5.has(entity)
        &&& self.6.has(entity)
        &&& self.7.has(entity)
    }

    open spec fn missing(&self, entity: Key) -> MissingComponent {
        if !self.0.has(entity) {
            self.0.missing(entity)
        } else if !self.1.has(entity) {
            self.1.missing(entity)
        } else if !self.2.has(entity) {
            self.2.missing(entity)
        } else if !self.3.has(entity) {
            self.3.missing(entity)
        } else if !self.4.has(entity) {
            self.4.missing(entity)
        } else if !self.5.has(entity) {
            self.5.missing(entity)
        } else if !self.6.has(entity) {
            self.6.missing(entity)
        } else {
            self.7.missing(entity)
        }
    }

    open spec fn yields(&self, entity: Key, out: Self::Out) -> bool {
        &&& self.0.yields(entity, out.0)
        &&& self.1.yields(entity, out.1)
        &&& self.2.yields(entity, out.2)
        &&& self.3.yields(entity, out.3)
        &&& self.4.yields(entity, out.4)
        &&& self.5.yields(entity, out.5)
        &&& self.6.yields(entity, out.6)
        &&& self.7.yields(entity, out.7)
    }

    open spec fn fast_yields(&self, entity: Key, out: Self::FastOut) -> bool {
        &&& self.0.fast_yields(entity, out.0)
        &&& self.1.fast_yields(entity, out.1)
        &&& self.2.fast_yields(entity, out.2)
        &&& self.3.fast_yields(entity, out.3)
        &&& self.4.fast_yields(entity, out.4)
        &&& self.5.fast_yields(entity, out.5)
        &&& self.6.fast_yields(entity, out.6)
        &&& self.7.fast_yields(entity, out.7)
    }

    fn get(self, entity: Key) -> (found: Result<Self::Out, MissingComponent>) {
        let a = match self.0.get(entity) {
            Ok(out) => out,
            Err(error) => {
                return Err(error);
            },
        };
        let b = match self.1.get(entity) {
            Ok(out) => out,
            Err(error) => {
                return Err(error);
            },
        };
        let c = match self.2.get(entity) {
            Ok(out) => out,
            Err(error) => {
                return Err(error);
            },
        };
        let d = match self.3.get(entity) {
            Ok(out) => out,
            Err(error) => {
                return Err(error);
            },
        };
        let e = match self.4.get(entity) {
            Ok(out) => out,
            Err(error) => {
                return Err(error);
            },
        };
        let f = match self.5.get(entity) {
            Ok(out) => out,
            Err(error) => {
                return Err(error);
            },
        };
        let g = match self.6.get(entity) {
            Ok(out) => out,
            Err(error) => {
                return Err(error);
            },
        };
        let h = match self.7.get(entity) {
            Ok(out) => out,
            Err(error) => {
                return Err(error);
            },
        };
        Ok((a, b, c, d, e, f, g, h))
    }

    fn fast_get(self, entity: Key) -> (found: Result<Self::FastOut, MissingComponent>) {
        let a = match self.0.fast_get(entity) {
            Ok(out) => out,
            Err(error) => {
                return Err(error);
            },
        };
        let b = match self.1.fast_get(entity) {
            Ok(out) => out,
            Err(error) => {
                return Err(error);
            },
        };
        let c = match self.2.fast_get(entity) {
            Ok(out) => out,
            Err(error) => {
                return Err(error);
            },
        };
        let d = match self.3.fast_get(entity) {
            Ok(out) => out,
            Err(error) => {
                return Err(error);
            },
        };
        let e = match self.4.fast_get(entity) {
            Ok(out) => out,
            Err(error) => {
                return Err(error);
            },
        };
        let f = match self.5.fast_get(entity) {
            Ok(out) => out,
            Err(error) => {
                return Err(error);
            },
        };
        let g = match self.6.fast_get(entity) {
            Ok(out) => out,
            Err(error) => {
                return Err(error);
            },
        };
        let h = match self.7.fast_get(entity) {
            Ok(out) => out,
            Err(error) => {
                return Err(error);
            },
        };
        Ok((a, b, c, d, e, f, g, h))
    }
}

impl<A, B, C, D, E, F, G, H, I> Get for (A, B, C, D, E, F, G, H, I) where
    A: Get,
    B: Get,
    C: Get,
    D: Get,
    E: Get,
    F: Get,
    G: Get,
    H: Get,
    I: Get,
{
    type Out = (A::Out, B::Out, C::Out, D::Out, E::Out, F::Out, G::Out, H::Out, I::Out);

    type FastOut = (
        A::FastOut,
        B::FastOut,
        C::FastOut,
        D::FastOut,
        E::FastOut,
        F::FastOut,
        G::FastOut,
        H::FastOut,
        I::FastOut,
    );

    open spec fn wf(&self) -> bool {
        &&& self.0.wf()
        &&& self.1.wf()
        &&& self.2.wf()
        &&& self.3.wf()
        &&& self.4.wf()
        &&& self.5.wf()
        &&& self.6.wf()
        &&& self.7.wf()
        &&& self.8.wf()
    }

    open spec fn has(&self, entity: Key) -> bool {
        &&& self.0.has(entity)
        &&& self.1.has(entity)
        &&& self.2.has(entity)
        &&& self.3.has(entity)
        &&& self.4.has(entity)
        &&& self.5.has(entity)
        &&& self.6.has(entity)
        &&& self.7.has(entity)
        &&& self.8.has(entity)
    }

    open spec fn missing(&self, entity: Key) -> MissingComponent {
        if !self.0.has(entity) {
            self.0.missing(entity)
        } else if !self.1.has(entity) {
            self.1.missing(entity)
        } else if !self.2.has(entity) {
            self.2.missing(entity)
        } else if !self.3.has(entity) {
            self.3.missing(entity)
        } else if !self.4.has(entity) {
            self.4.missing(entity)
        } else if !self.5.has(entity) {
            self.5.missing(entity)
        } else if !self.6.has(entity) {
            self.6.missing(entity)
        } else if !self.7.has(entity) {
            self.7.missing(entity)
        } else {
            self.8.missing(entity)
        }
    }

    open spec fn yields(&self, entity: Key, out: Self::Out) -> bool {
        &&& self.0.yields(entity, out.0)
        &&& self.1.yields(entity, out.1)
        &&& self.2.yields(entity, out.2)
        &&& self.3.yields(entity, out.3)
        &&& self.4.yields(entity, out.4)
        &&& self.5.yields(entity, out.5)
        &&& self.6.yields(entity, out.6)
        &&& self.7.yields(entity, out.7)
        &&& self.8.yields(entity, out.8)
    }

    open spec fn fast_yields(&self, entity: Key, out: Self::FastOut) -> bool {
        &&& self.0.fast_yields(entity, out.0)
        &&& self.1.fast_yields(entity, out.1)
        &&& self.2.fast_yields(entity, out.2)
        &&& self.3.fast_yields(entity, out.3)
        &&& self.4.fast_yields(entity, out.4)
        &&& self.5.fast_yields(entity, out.5)
        &&& self.6.fast_yields(entity, out.6)
        &&& self.7.fast_yields(entity, out.7)
        &&& self.8.fast_yields(entity, out.8)
    }

    fn get(self, entity: Key) -> (found: Result<Self::Out, MissingComponent>) {
        let a = match self.0.get(entity) {
            Ok(out) => out,
            Err(error) => {
                return Err(error);
            },
        };
        let b = match self.1.get(entity) {
            Ok(out) => out,
            Err(error) => {
                return Err(error);
            },
        };
        let c = match self.2.get(entity) {
            Ok(out) => out,
            Err(error) => {
                return Err(error);
            },
        };
        let d = match self.3.get(entity) {
            Ok(out) => out,
            Err(error) => {
                return Err(error);
            },
        };
        let e = match self.4.get(entity) {
            Ok(out) => out,
            Err(error) => {
                return Err(error);
            },
        };
        let f = match self.5.get(entity) {
            Ok(out) => out,
            Err(error) => {
                return Err(error);
            },
        };
        let g = match self.6.get(entity) {
            Ok(out) => out,
            Err(error) => {
                return Err(error);
            },
        };
        let h = match self.7.get(entity) {
            Ok(out) => out,
            Err(error) => {
                return Err(error);
            },
        };
        let i = match self.8.get(entity) {
            Ok(out) => out,
            Err(error) => {
                return Err(error);
            },
        };
        Ok((a, b, c, d, e, f, g, h, i))
    }

    fn fast_get(self, entity: Key) -> (found: Result<Self::FastOut, MissingComponent>) {
        let a = match self.0.fast_get(entity) {
            Ok(out) => out,
            Err(error) => {
                return Err(error);
            },
        };
        let b = match self.1.fast_get(entity) {
            Ok(out) => out,
            Err(error) => {
                return Err(error);
            },
        };
        let c = match self.2.fast_get(entity) {
            Ok(out) => out,
            Err(error) => {
                return Err(error);
            },
        };
        let d = match self.3.fast_get(entity) {
            Ok(out) => out,
            Err(error) => {
                return Err(error);
            },
        };
        let e = match self.4.fast_get(entity) {
            Ok(out) => out,
            Err(error) => {
                return Err(error);
            },
        };
        let f = match self.5.fast_get(entity) {
            Ok(out) => out,
            Err(error) => {
                return Err(error);
            },
        };
        let g = match self.6.fast_get(entity) {
            Ok(out) => out,
            Err(error) => {
                return Err(error);
            },
        };
        let h = match self.7.fast_get(entity) {
            Ok(out) => out,
            Err(error) => {
                return Err(error);
            },
        };
        let i = match self.8.fast_get(entity) {
            Ok(out) => out,
            Err(error) => {
                return Err(error);
            },
        };
        Ok((a, b, c, d, e, f, g, h, i))
    }
}

impl<A, B, C, D, E, F, G, H, I, J> Get for (A, B, C, D, E, F, G, H, I, J) where
    A: Get,
    B: Get,
    C: Get,
    D: Get,
    E: Get,
    F: Get,
    G: Get,
    H: Get,
    I: Get,
    J: Get,
{
    type Out = (A::Out, B::Out, C::Out, D::Out, E::Out, F::Out, G::Out, H::Out, I::Out, J::Out);

    type FastOut = (
        A::FastOut,
        B::FastOut,
        C::FastOut,
        D::FastOut,
        E::FastOut,
        F::FastOut,
        G::FastOut,
        H::FastOut,
        I::FastOut,
        J::FastOut,
    );

    open spec fn wf(&self) -> bool {
        &&& self.0.wf()
        &&& self.1.wf()
        &&& self.2.wf()
        &&& self.3.wf()
        &&& self.4.wf()
        &&& self.5.wf()
        &&& self.6.wf()
        &&& self.7.wf()
        &&& self.8.wf()
        &&& self.9.wf()
    }

    open spec fn has(&self, entity: Key) -> bool {
        &&& self.0.has(entity)
        &&& self.1.has(entity)
        &&& self.2.has(entity)
        &&& self.3.has(entity)
        &&& self.4.has(entity)
        &&& self.5.has(entity)
        &&& self.6.has(entity)
        &&& self.7.has(entity)
        &&& self.8.has(entity)
        &&& self.9.has(entity)
    }

    open spec fn missing(&self, entity: Key) -> MissingComponent {
        if !self.0.has(entity) {
            self.0.missing(entity)
        } else if !self.1.has(entity) {
            self.1.missing(entity)
        } else if !self.2.has(entity) {
            self.2.missing(entity)
        } else if !self.3.has(entity) {
            self.3.missing(entity)
        } else if !self.4.has(entity) {
            self.4.missing(entity)
        } else if !self.5.has(entity) {
            self.5.missing(entity)
        } else if !self.6.has(entity) {
            self.6.missing(entity)
        } else if !self.7.has(entity) {
            self.7.missing(entity)
        } else if !self.8.has(entity) {
            self.8.missing(entity)
        } else {
            self.9.missing(entity)
        }
    }

    open spec fn yields(&self, entity: Key, out: Self::Out) -> bool {
        &&& self.0.yields(entity, out.0)
        &&& self.1.yields(entity, out.1)
        &&& self.2.yields(entity, out.2)
        &&& self.3.yields(entity, out.3)
        &&& self.4.yields(entity, out.4)
        &&& self.5.yields(entity, out.5)
        &&& self.6.yields(entity, out.6)
        &&& self.7.yields(entity, out.7)
        &&& self.8.yields(entity, out.8)
        &&& self.9.yields(entity, out.9)
    }

    open spec fn fast_yields(&self, entity: Key, out: Self::FastOut) -> bool {
        &&& self.0.fast_yields(entity, out.0)
        &&& self.1.fast_yields(entity, out.1)
        &&& self.2.fast_yields(entity, out.2)
        &&& self.3.fast_yields(entity, out.3)
        &&& self.4.fast_yields(entity, out.4)
        &&& self.5.fast_yields(entity, out.5)
        &&& self.6.fast_yields(entity, out.6)
        &&& self.7.fast_yields(entity, out.7)
        &&& self.8.fast_yields(entity, out.8)
        &&& self.9.fast_yields(entity, out.9)
    }

    fn get(self, entity: Key) -> (found: Result<Self::Out, MissingComponent>) {
        let a = match self.0.get(entity) {
            Ok(out) => out,
            Err(error) => {
                return Err(error);
            },
        };
        let b = match self.1.get(entity) {
            Ok(out) => out,
            Err(error) => {
                return Err(error);
            },
        };
        let c = match self.2.get(entity) {
            Ok(out) => out,
            Err(error) => {
                return Err(error);
            },
        };
        let d = match self.3.get(entity) {
            Ok(out) => out,
            Err(error) => {
                return Err(error);
            },
        };
        let e = match self.4.get(entity) {
            Ok(out) => out,
            Err(error) => {
                return Err(error);
            },
        };
        let f = match self.5.get(entity) {
            Ok(out) => out,
            Err(error) => {
                return Err(error);
            },
        };
        let g = match self.6.get(entity) {
            Ok(out) => out,
            Err(error) => {
                return Err(error);
            },
        };
        let h = match self.7.get(entity) {
            Ok(out) => out,
            Err(error) => {
                return Err(error);
            },
        };
        let i = match self.8.get(entity) {
            Ok(out) => out,
            Err(error) => {
                return Err(error);
            },
        };
        let j = match self.9.get(entity) {
            Ok(out) => out,
            Err(error) => {
                return Err(error);
            },
        };
        Ok((a, b, c, d, e, f, g, h, i, j))
    }

    fn fast_get(self, entity: Key) -> (found: Result<Self::FastOut, MissingComponent>) {
        let a = match self.0.fast_get(entity) {
            Ok(out) => out,
            Err(error) => {
                return Err(error);
            },
        };
        let b = match self.1.fast_get(entity) {
            Ok(out) => out,
            Err(error) => {
                return Err(error);
            },
        };
        let c = match self.2.fast_get(entity) {
            Ok(out) => out,
            Err(error) => {
                return Err(error);
            },
        };
        let d = match self.3.fast_get(entity) {
            Ok(out) => out,
            Err(error) => {
                return Err(error);
            },
        };
        let e = match self.4.fast_get(entity) {
            Ok(out) => out,
            Err(error) => {
                return Err(error);
            },
        };
        let f = match self.5.fast_get(entity) {
            Ok(out) => out,
            Err(error) => {
                return Err(error);
            },
        };
        let g = match self.6.fast_get(entity) {
            Ok(out) => out,
            Err(error) => {
                return Err(error);
            },
        };
        let h = match self.7.fast_get(entity) {
            Ok(out) => out,
            Err(error) => {
                return Err(error);
            },
        };
        let i = match self.8.fast_get(entity) {
            Ok(out) => out,
            Err(error) => {
                return Err(error);
            },
        };
        let j = match self.9.fast_get(entity) {
            Ok(out) => out,
            Err(error) => {
                return Err(error);
            },
        };
        Ok((a, b, c, d, e, f, g, h, i, j))
    }
}

/// A pair of views fails for an entity with the error of the first view,
/// from the left, that has no component for it: with the error of the
/// second where the first has one and the second has none, and with the
/// error of the first where the first has none, whatever the second has.
pub proof fn law_pair_short_circuit<A: Get, B: Get>(pair: (A, B), entity: Key)
    ensures
        pair.0.has(entity) && !pair.1.has(entity) ==> !pair.has(entity) && pair.missing(entity)
            == pair.1.missing(entity),
        !pair.0.has(entity) ==> !pair.has(entity) && pair.missing(entity) == pair.0.missing(
            entity,
        ),
{
}

} // verus!
