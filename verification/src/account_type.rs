//! The kinds of account that the oracle program keeps.

use vstd::prelude::*;

verus! {

#[allow(non_camel_case_types)]
#[derive(Debug, PartialEq, Eq, Clone, Copy, Structural)]
pub enum SwitchboardAccountType {
    TYPE_UNINITIALIZED,
    TYPE_AGGREGATOR,
    TYPE_FULFILLMENT_MANAGER,
    TYPE_JOB_DEFINITION,
    TYPE_FULFILLMENT_MANAGER_AUTH,
    TYPE_AGGREGATOR_RESULT_PARSE_OPTIMIZED,
    TYPE_BUNDLE,
    TYPE_BUNDLE_AUTH,
    TYPE_VRF,
    TYPE_VRF_PERMIT,
}

impl SwitchboardAccountType {
    /// The kind that a number stands for; a number that stands for none is
    /// read as uninitialized.
    pub open spec fn of_number(i: i32) -> SwitchboardAccountType {
        if i == 1 {
            SwitchboardAccountType::TYPE_AGGREGATOR
        } else if i == 2 {
            SwitchboardAccountType::TYPE_FULFILLMENT_MANAGER
        } else if i == 3 {
            SwitchboardAccountType::TYPE_JOB_DEFINITION
        } else if i == 4 {
            SwitchboardAccountType::TYPE_FULFILLMENT_MANAGER_AUTH
        } else if i == 5 {
            SwitchboardAccountType::TYPE_AGGREGATOR_RESULT_PARSE_OPTIMIZED
        } else if i == 6 {
            SwitchboardAccountType::TYPE_BUNDLE
        } else if i == 7 {
            SwitchboardAccountType::TYPE_BUNDLE_AUTH
        } else if i == 8 {
            SwitchboardAccountType::TYPE_VRF
        } else if i == 9 {
            SwitchboardAccountType::TYPE_VRF_PERMIT
        } else {
            SwitchboardAccountType::TYPE_UNINITIALIZED
        }
    }

    /// The number that stands for a kind.
    pub open spec fn number_spec(self) -> i32 {
        match self {
            SwitchboardAccountType::TYPE_UNINITIALIZED => 0,
            SwitchboardAccountType::TYPE_AGGREGATOR => 1,
            SwitchboardAccountType::TYPE_FULFILLMENT_MANAGER => 2,
            SwitchboardAccountType::TYPE_JOB_DEFINITION => 3,
            SwitchboardAccountType::TYPE_FULFILLMENT_MANAGER_AUTH => 4,
            SwitchboardAccountType::TYPE_AGGREGATOR_RESULT_PARSE_OPTIMIZED => 5,
            SwitchboardAccountType::TYPE_BUNDLE => 6,
            SwitchboardAccountType::TYPE_BUNDLE_AUTH => 7,
            SwitchboardAccountType::TYPE_VRF => 8,
            SwitchboardAccountType::TYPE_VRF_PERMIT => 9,
        }
    }

    /// The kind that a name stands for; a name that stands for none is read as
    /// uninitialized.
    pub open spec fn of_name(s: Seq<char>) -> SwitchboardAccountType {
        if s == "TYPE_AGGREGATOR"@ {
            SwitchboardAccountType::TYPE_AGGREGATOR
        } else if s == "TYPE_FULFILLMENT_MANAGER"@ {
            SwitchboardAccountType::TYPE_FULFILLMENT_MANAGER
        } else if s == "TYPE_JOB_DEFINITION"@ {
            SwitchboardAccountType::TYPE_JOB_DEFINITION
        } else if s == "TYPE_FULFILLMENT_MANAGER_AUTH"@ {
            SwitchboardAccountType::TYPE_FULFILLMENT_MANAGER_AUTH
        } else if s == "TYPE_AGGREGATOR_RESULT_PARSE_OPTIMIZED"@ {
            SwitchboardAccountType::TYPE_AGGREGATOR_RESULT_PARSE_OPTIMIZED
        } else if s == "TYPE_BUNDLE"@ {
            SwitchboardAccountType::TYPE_BUNDLE
        } else if s == "TYPE_BUNDLE_AUTH"@ {
            SwitchboardAccountType::TYPE_BUNDLE_AUTH
        } else if s == "TYPE_VRF"@ {
            SwitchboardAccountType::TYPE_VRF
        } else if s == "TYPE_VRF_PERMIT"@ {
            SwitchboardAccountType::TYPE_VRF_PERMIT
        } else {
            SwitchboardAccountType::TYPE_UNINITIALIZED
        }
    }

    /// Returns the number that stands for this kind.
    pub fn number(&self) -> (n: i32)
        ensures
            n == self.number_spec(),
            SwitchboardAccountType::of_number(n) == *self,
    {
        match self {
            SwitchboardAccountType::TYPE_UNINITIALIZED => 0,
            SwitchboardAccountType::TYPE_AGGREGATOR => 1,
            SwitchboardAccountType::TYPE_FULFILLMENT_MANAGER => 2,
            SwitchboardAccountType::TYPE_JOB_DEFINITION => 3,
            SwitchboardAccountType::TYPE_FULFILLMENT_MANAGER_AUTH => 4,
            SwitchboardAccountType::TYPE_AGGREGATOR_RESULT_PARSE_OPTIMIZED => 5,
            SwitchboardAccountType::TYPE_BUNDLE => 6,
            SwitchboardAccountType::TYPE_BUNDLE_AUTH => 7,
            SwitchboardAccountType::TYPE_VRF => 8,
            SwitchboardAccountType::TYPE_VRF_PERMIT => 9,
        }
    }
}

/// Whether two strings hold the same characters.
fn same_text(a: &str, b: &str) -> (r: bool)
    ensures
        r == (a@ == b@),
{
    let x = a.to_owned();
    let y = b.to_owned();
    x == y
}

impl Default for SwitchboardAccountType {
    fn default() -> (t: SwitchboardAccountType)
        ensures
            t == SwitchboardAccountType::TYPE_UNINITIALIZED,
    {
        SwitchboardAccountType::TYPE_UNINITIALIZED
    }
}

impl From<i32> for SwitchboardAccountType {
    fn from(i: i32) -> (t: SwitchboardAccountType) {
        match i {
            0 => SwitchboardAccountType::TYPE_UNINITIALIZED,
            1 => SwitchboardAccountType::TYPE_AGGREGATOR,
            2 => SwitchboardAccountType::TYPE_FULFILLMENT_MANAGER,
            3 => SwitchboardAccountType::TYPE_JOB_DEFINITION,
            4 => SwitchboardAccountType::TYPE_FULFILLMENT_MANAGER_AUTH,
            5 => SwitchboardAccountType::TYPE_AGGREGATOR_RESULT_PARSE_OPTIMIZED,
            6 => SwitchboardAccountType::TYPE_BUNDLE,
            7 => SwitchboardAccountType::TYPE_BUNDLE_AUTH,
            8 => SwitchboardAccountType::TYPE_VRF,
            9 => SwitchboardAccountType::TYPE_VRF_PERMIT,
            _ => SwitchboardAccountType::TYPE_UNINITIALIZED,
        }
    }
}

impl vstd::std_specs::convert::FromSpecImpl<i32> for SwitchboardAccountType {
    open spec fn obeys_from_spec() -> bool {
        true
    }

    open spec fn from_spec(i: i32) -> SwitchboardAccountType {
        SwitchboardAccountType::of_number(i)
    }
}

impl<'a> From<&'a str> for SwitchboardAccountType {
    fn from(s: &'a str) -> (t: SwitchboardAccountType) {
        if same_text(s, "TYPE_AGGREGATOR") {
            SwitchboardAccountType::TYPE_AGGREGATOR
        } else if same_text(s, "TYPE_FULFILLMENT_MANAGER") {
            SwitchboardAccountType::TYPE_FULFILLMENT_MANAGER
        } else if same_text(s, "TYPE_JOB_DEFINITION") {
            SwitchboardAccountType::TYPE_JOB_DEFINITION
        } else if same_text(s, "TYPE_FULFILLMENT_MANAGER_AUTH") {
            SwitchboardAccountType::TYPE_FULFILLMENT_MANAGER_AUTH
        } else if same_text(s, "TYPE_AGGREGATOR_RESULT_PARSE_OPTIMIZED") {
            SwitchboardAccountType::TYPE_AGGREGATOR_RESULT_PARSE_OPTIMIZED
        } else if same_text(s, "TYPE_BUNDLE") {
            SwitchboardAccountType::TYPE_BUNDLE
        } else if same_text(s, "TYPE_BUNDLE_AUTH") {
            SwitchboardAccountType::TYPE_BUNDLE_AUTH
        } else if same_text(s, "TYPE_VRF") {
            SwitchboardAccountType::TYPE_VRF
        } else if same_text(s, "TYPE_VRF_PERMIT") {
            SwitchboardAccountType::TYPE_VRF_PERMIT
        } else {
            SwitchboardAccountType::TYPE_UNINITIALIZED
        }
    }
}

impl<'a> vstd::std_specs::convert::FromSpecImpl<&'a str> for SwitchboardAccountType {
    open spec fn obeys_from_spec() -> bool {
        true
    }

    open spec fn from_spec(s: &'a str) -> SwitchboardAccountType {
        SwitchboardAccountType::of_name(s@)
    }
}

} // verus!
