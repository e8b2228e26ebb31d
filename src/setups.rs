//! Setups: reactors, turbines and boilers that work together.

use crate::boiler::Boiler;
use crate::fission::FissionReactor;
use crate::turbine::Turbine;
use vstd::prelude::*;
use vstd::string::StringExecFns;

verus! {

/// A group of structures that can describe itself in one line.
pub trait Setup {
    /// The one-line description.
    spec fn summary(&self) -> Seq<char>;

    fn summarize(&self) -> (r: String)
        ensures
            r@ == self.summary(),
    ;
}

/// A setup of either kind.
pub enum SetupType {
    BinarySetup(BinarySetup),
    TrinarySetup(TrinarySetup),
}

/// A reactor feeding a turbine.
pub struct BinarySetup {
    pub reactor: FissionReactor,
    pub turbine: Turbine,
}

/// A reactor, a boiler and a turbine.
pub struct TrinarySetup {
    pub reactor: FissionReactor,
    pub turbine: Turbine,
    pub boiler: Boiler,
}

impl Setup for BinarySetup {
    open spec fn summary(&self) -> Seq<char> {
        " "@ + self.reactor.summary() + " / "@ + self.turbine.summary() + " "@
    }

    fn summarize(&self) -> (r: String) {
        let mut text = String::from_str(" ");
        text.append(self.reactor.summarize().as_str());
        text.append(" / ");
        text.append(self.turbine.summarize().as_str());
        text.append(" ");
        text
    }
}

impl Setup for TrinarySetup {
    open spec fn summary(&self) -> Seq<char> {
        " "@ + self.reactor.summary() + " / "@ + self.boiler.summary() + " / "@
            + self.turbine.summary() + " "@
    }

    fn summarize(&self) -> (r: String) {
        let mut text = String::from_str(" ");
        text.append(self.reactor.summarize().as_str());
        text.append(" / ");
        text.append(self.boiler.summarize().as_str());
        text.append(" / ");
        text.append(self.turbine.summarize().as_str());
        text.append(" ");
        text
    }
}

impl Setup for SetupType {
    open spec fn summary(&self) -> Seq<char> {
        match self {
            SetupType::BinarySetup(binary_setup) => binary_setup.summary(),
            SetupType::TrinarySetup(trinary_setup) => trinary_setup.summary(),
        }
    }

    fn summarize(&self) -> (r: String) {
        match self {
            SetupType::BinarySetup(binary_setup) => binary_setup.summarize(),
            SetupType::TrinarySetup(trinary_setup) => trinary_setup.summarize(),
        }
    }
}

impl Default for TrinarySetup {
    fn default() -> (r: TrinarySetup)
        ensures
            r.reactor == FissionReactor::blank(),
            r.boiler == (Boiler { x: 0, z: 0, y: 0, heating_element: 0, dispersers: 0 }),
            r.turbine == Turbine::blank(),
    {
        TrinarySetup {
            reactor: FissionReactor::default(),
            boiler: Boiler::default(),
            turbine: Turbine::default(),
        }
    }
}

} // verus!
