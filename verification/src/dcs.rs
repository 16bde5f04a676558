//! Aircraft known to the client and how they are recognised and shown.
use vstd::prelude::*;

verus! {

/// An aircraft module of DCS World that the client knows about.
#[allow(non_camel_case_types)]
#[derive(Debug, Clone, Copy, PartialEq, Eq, Structural)]
pub enum Aircraft {
    F_16Cb50,
    FA_18C,
    AH_64D,
    Unknown,
}

/// The name that DCS reports for the F-16C block 50 module.
pub open spec fn f16_dcs_name() -> Seq<char> {
    seq!['F', '-', '1', '6', 'C', '_', '5', '0']
}

/// The aircraft that a name reported by DCS stands for.
pub open spec fn spec_aircraft_by_name(name: Seq<char>) -> Aircraft {
    if name == f16_dcs_name() {
        Aircraft::F_16Cb50
    } else {
        Aircraft::Unknown
    }
}

/// Only the F-16C block 50 is recognised by name; every other name stands for
/// an aircraft the client does not support.
pub proof fn lemma_only_f16_recognised(name: Seq<char>)
    ensures
        spec_aircraft_by_name(name) == Aircraft::F_16Cb50 || spec_aircraft_by_name(name) == Aircraft::Unknown,
        spec_aircraft_by_name(name) == Aircraft::F_16Cb50 <==> name == f16_dcs_name(),
{
}

/// Each aircraft is shown under a label of its own.
pub proof fn lemma_friendly_names_distinct(first: Aircraft, second: Aircraft)
    ensures
        first.friendly_name() == second.friendly_name() ==> first == second,
{
    reveal_strlit("F-16C block 50");
    reveal_strlit("F/A 18C Hornet");
    reveal_strlit("AH-64D Apache");
    reveal_strlit("Unsupported aircraft");
    if first != second {
        assert(first.friendly_name()[1] != second.friendly_name()[1] || first.friendly_name().len()
            != second.friendly_name().len() || first.friendly_name()[0] != second.friendly_name()[0]);
    }
}

impl Aircraft {
    /// The label under which an aircraft is shown to the user.
    pub open spec fn friendly_name(self) -> Seq<char> {
        match self {
            Aircraft::F_16Cb50 => "F-16C block 50"@,
            Aircraft::FA_18C => "F/A 18C Hornet"@,
            Aircraft::AH_64D => "AH-64D Apache"@,
            Aircraft::Unknown => "Unsupported aircraft"@,
        }
    }

    /// Returns the label under which this aircraft is shown to the user.
    pub fn get_friendly_name(&self) -> (name: &'static str)
        ensures
            name@ == self.friendly_name(),
    {
        match self {
            Aircraft::F_16Cb50 => "F-16C block 50",
            Aircraft::FA_18C => "F/A 18C Hornet",
            Aircraft::AH_64D => "AH-64D Apache",
            _ => "Unsupported aircraft",
        }
    }
}

/// Recognises the aircraft from the name that DCS reports for it.
pub fn aircraft_by_name(name: String) -> (aircraft: Aircraft)
    ensures
        aircraft == spec_aircraft_by_name(name@),
{
    let known = String::from_str("F-16C_50");
    proof {
        reveal_strlit("F-16C_50");
        assert("F-16C_50"@ =~= f16_dcs_name());
    }
    if name == known {
        Aircraft::F_16Cb50
    } else {
        Aircraft::Unknown
    }
}

} // verus!
