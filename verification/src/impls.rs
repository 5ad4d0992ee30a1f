//! The names of the domain's enumerations: the label shown to users and the
//! key under which a form or a query string carries a value.

use crate::general::{FuelType, Gender, Position, Profession, Qualification, RiskLevel, SiteType};
use crate::text::{join2, str_eq};
use vstd::prelude::*;
use vstd::string::*;

verus! {

impl SiteType {
    /// The label of a site type, as shown to users.
    pub open spec fn label(self) -> Seq<char> {
        match self {
            SiteType::PowerPlant => "Power Plant"@,
            SiteType::Road => "Road"@,
            SiteType::Housing => "Housing"@,
            SiteType::Bridge => "Bridge"@,
            SiteType::Park => "Park"@,
        }
    }

    /// The key of a site type in forms and query strings.
    pub open spec fn key(self) -> Seq<char> {
        match self {
            SiteType::PowerPlant => "power_plant"@,
            SiteType::Road => "road"@,
            SiteType::Housing => "housing"@,
            SiteType::Bridge => "bridge"@,
            SiteType::Park => "park"@,
        }
    }

    /// The value that a key stands for, if it is the key of any.
    pub open spec fn parse(s: Seq<char>) -> Option<SiteType> {
        if s == "power_plant"@ {
            Some(SiteType::PowerPlant)
        } else if s == "road"@ {
            Some(SiteType::Road)
        } else if s == "housing"@ {
            Some(SiteType::Housing)
        } else if s == "bridge"@ {
            Some(SiteType::Bridge)
        } else if s == "park"@ {
            Some(SiteType::Park)
        } else {
            None
        }
    }

    /// The label of the value.
    pub fn to_string(&self) -> (s: String)
        ensures
            s@ == self.label(),
    {
        match self {
            SiteType::PowerPlant => String::from_str("Power Plant"),
            SiteType::Road => String::from_str("Road"),
            SiteType::Housing => String::from_str("Housing"),
            SiteType::Bridge => String::from_str("Bridge"),
            SiteType::Park => String::from_str("Park"),
        }
    }

    /// Reads a key. Any other text is refused, with a message that quotes it.
    pub fn from_str(s: &str) -> (r: Result<SiteType, String>)
        ensures
            match r {
                Ok(v) => Self::parse(s@) == Some(v),
                Err(e) => Self::parse(s@) is None && e@ == "Invalid SiteType: "@ + s@,
            },
    {
        if str_eq(s, "power_plant") {
            Ok(SiteType::PowerPlant)
        } else if str_eq(s, "road") {
            Ok(SiteType::Road)
        } else if str_eq(s, "housing") {
            Ok(SiteType::Housing)
        } else if str_eq(s, "bridge") {
            Ok(SiteType::Bridge)
        } else if str_eq(s, "park") {
            Ok(SiteType::Park)
        } else {
            Err(join2("Invalid SiteType: ", s))
        }
    }
}

/// Every value is read back from its own key.
pub proof fn lemma_site_type_key_round_trip(value: SiteType)
    ensures
        SiteType::parse(value.key()) == Some(value),
{
    reveal_strlit("power_plant");
    reveal_strlit("road");
    reveal_strlit("housing");
    reveal_strlit("bridge");
    reveal_strlit("park");
    assert("power_plant"@.len() != "road"@.len());
    assert("power_plant"@.len() != "housing"@.len());
    assert("power_plant"@.len() != "bridge"@.len());
    assert("power_plant"@.len() != "park"@.len());
    assert("road"@.len() != "housing"@.len());
    assert("road"@.len() != "bridge"@.len());
    assert("road"@[0] != "park"@[0]);
    assert("housing"@.len() != "bridge"@.len());
    assert("housing"@.len() != "park"@.len());
    assert("bridge"@.len() != "park"@.len());
}

impl RiskLevel {
    /// The label of a risk level, as shown to users.
    pub open spec fn label(self) -> Seq<char> {
        match self {
            RiskLevel::Low => "Low"@,
            RiskLevel::Meidum => "Medium"@,
            RiskLevel::High => "High"@,
        }
    }

    /// The key of a risk level in forms and query strings.
    pub open spec fn key(self) -> Seq<char> {
        match self {
            RiskLevel::Low => "low"@,
            RiskLevel::Meidum => "medium"@,
            RiskLevel::High => "high"@,
        }
    }

    /// The value that a key stands for, if it is the key of any.
    pub open spec fn parse(s: Seq<char>) -> Option<RiskLevel> {
        if s == "low"@ {
            Some(RiskLevel::Low)
        } else if s == "medium"@ {
            Some(RiskLevel::Meidum)
        } else if s == "high"@ {
            Some(RiskLevel::High)
        } else {
            None
        }
    }

    /// The label of the value.
    pub fn to_string(&self) -> (s: String)
        ensures
            s@ == self.label(),
    {
        match self {
            RiskLevel::Low => String::from_str("Low"),
            RiskLevel::Meidum => String::from_str("Medium"),
            RiskLevel::High => String::from_str("High"),
        }
    }

    /// Reads a key. Any other text is refused, with a message that quotes it.
    pub fn from_str(s: &str) -> (r: Result<RiskLevel, String>)
        ensures
            match r {
                Ok(v) => Self::parse(s@) == Some(v),
                Err(e) => Self::parse(s@) is None && e@ == "Invalid RiskLevel: "@ + s@,
            },
    {
        if str_eq(s, "low") {
            Ok(RiskLevel::Low)
        } else if str_eq(s, "medium") {
            Ok(RiskLevel::Meidum)
        } else if str_eq(s, "high") {
            Ok(RiskLevel::High)
        } else {
            Err(join2("Invalid RiskLevel: ", s))
        }
    }
}

/// Every value is read back from its own key.
pub proof fn lemma_risk_level_key_round_trip(value: RiskLevel)
    ensures
        RiskLevel::parse(value.key()) == Some(value),
{
    reveal_strlit("low");
    reveal_strlit("medium");
    reveal_strlit("high");
    assert("low"@.len() != "medium"@.len());
    assert("low"@.len() != "high"@.len());
    assert("medium"@.len() != "high"@.len());
}

impl Profession {
    /// The label of a profession, as shown to users.
    pub open spec fn label(self) -> Seq<char> {
        match self {
            Profession::Electrician => "Electrician"@,
            Profession::Plumber => "Plumber"@,
            Profession::Welder => "Welder"@,
            Profession::Driver => "Driver"@,
            Profession::Mason => "Mason"@,
        }
    }

    /// The key of a profession in forms and query strings.
    pub open spec fn key(self) -> Seq<char> {
        match self {
            Profession::Electrician => "electrician"@,
            Profession::Plumber => "plumber"@,
            Profession::Welder => "welder"@,
            Profession::Driver => "driver"@,
            Profession::Mason => "mason"@,
        }
    }

    /// The value that a key stands for, if it is the key of any.
    pub open spec fn parse(s: Seq<char>) -> Option<Profession> {
        if s == "electrician"@ {
            Some(Profession::Electrician)
        } else if s == "plumber"@ {
            Some(Profession::Plumber)
        } else if s == "welder"@ {
            Some(Profession::Welder)
        } else if s == "driver"@ {
            Some(Profession::Driver)
        } else if s == "mason"@ {
            Some(Profession::Mason)
        } else {
            None
        }
    }

    /// The label of the value.
    pub fn to_string(&self) -> (s: String)
        ensures
            s@ == self.label(),
    {
        match self {
            Profession::Electrician => String::from_str("Electrician"),
            Profession::Plumber => String::from_str("Plumber"),
            Profession::Welder => String::from_str("Welder"),
            Profession::Driver => String::from_str("Driver"),
            Profession::Mason => String::from_str("Mason"),
        }
    }

    /// Reads a key. Any other text is refused, with a message that quotes it.
    pub fn from_str(s: &str) -> (r: Result<Profession, String>)
        ensures
            match r {
                Ok(v) => Self::parse(s@) == Some(v),
                Err(e) => Self::parse(s@) is None && e@ == "Invalid Profession: "@ + s@,
            },
    {
        if str_eq(s, "electrician") {
            Ok(Profession::Electrician)
        } else if str_eq(s, "plumber") {
            Ok(Profession::Plumber)
        } else if str_eq(s, "welder") {
            Ok(Profession::Welder)
        } else if str_eq(s, "driver") {
            Ok(Profession::Driver)
        } else if str_eq(s, "mason") {
            Ok(Profession::Mason)
        } else {
            Err(join2("Invalid Profession: ", s))
        }
    }
}

/// Every value is read back from its own key.
pub proof fn lemma_profession_key_round_trip(value: Profession)
    ensures
        Profession::parse(value.key()) == Some(value),
{
    reveal_strlit("electrician");
    reveal_strlit("plumber");
    reveal_strlit("welder");
    reveal_strlit("driver");
    reveal_strlit("mason");
    assert("electrician"@.len() != "plumber"@.len());
    assert("electrician"@.len() != "welder"@.len());
    assert("electrician"@.len() != "driver"@.len());
    assert("electrician"@.len() != "mason"@.len());
    assert("plumber"@.len() != "welder"@.len());
    assert("plumber"@.len() != "driver"@.len());
    assert("plumber"@.len() != "mason"@.len());
    assert("welder"@[0] != "driver"@[0]);
    assert("welder"@.len() != "mason"@.len());
    assert("driver"@.len() != "mason"@.len());
}

impl Qualification {
    /// The label of a qualification, as shown to users.
    pub open spec fn label(self) -> Seq<char> {
        match self {
            Qualification::Technician => "Technician"@,
            Qualification::Technologist => "Technologist"@,
            Qualification::Engineer => "Engineer"@,
        }
    }

    /// The key of a qualification in forms and query strings.
    pub open spec fn key(self) -> Seq<char> {
        match self {
            Qualification::Technician => "technician"@,
            Qualification::Technologist => "technologist"@,
            Qualification::Engineer => "engineer"@,
        }
    }

    /// The value that a key stands for, if it is the key of any.
    pub open spec fn parse(s: Seq<char>) -> Option<Qualification> {
        if s == "technician"@ {
            Some(Qualification::Technician)
        } else if s == "technologist"@ {
            Some(Qualification::Technologist)
        } else if s == "engineer"@ {
            Some(Qualification::Engineer)
        } else {
            None
        }
    }

    /// The label of the value.
    pub fn to_string(&self) -> (s: String)
        ensures
            s@ == self.label(),
    {
        match self {
            Qualification::Technician => String::from_str("Technician"),
            Qualification::Technologist => String::from_str("Technologist"),
            Qualification::Engineer => String::from_str("Engineer"),
        }
    }

    /// Reads a key. Any other text is refused, with a message that quotes it.
    pub fn from_str(s: &str) -> (r: Result<Qualification, String>)
        ensures
            match r {
                Ok(v) => Self::parse(s@) == Some(v),
                Err(e) => Self::parse(s@) is None && e@ == "Invalid Qualification: "@ + s@,
            },
    {
        if str_eq(s, "technician") {
            Ok(Qualification::Technician)
        } else if str_eq(s, "technologist") {
            Ok(Qualification::Technologist)
        } else if str_eq(s, "engineer") {
            Ok(Qualification::Engineer)
        } else {
            Err(join2("Invalid Qualification: ", s))
        }
    }
}

/// Every value is read back from its own key.
pub proof fn lemma_qualification_key_round_trip(value: Qualification)
    ensures
        Qualification::parse(value.key()) == Some(value),
{
    reveal_strlit("technician");
    reveal_strlit("technologist");
    reveal_strlit("engineer");
    assert("technician"@.len() != "technologist"@.len());
    assert("technician"@.len() != "engineer"@.len());
    assert("technologist"@.len() != "engineer"@.len());
}

impl Position {
    /// The label of a position, as shown to users.
    pub open spec fn label(self) -> Seq<char> {
        match self {
            Position::Master => "Master"@,
            Position::Foreman => "Foreman"@,
        }
    }

    /// The key of a position in forms and query strings.
    pub open spec fn key(self) -> Seq<char> {
        match self {
            Position::Master => "master"@,
            Position::Foreman => "foreman"@,
        }
    }

    /// The value that a key stands for, if it is the key of any.
    pub open spec fn parse(s: Seq<char>) -> Option<Position> {
        if s == "master"@ {
            Some(Position::Master)
        } else if s == "foreman"@ {
            Some(Position::Foreman)
        } else {
            None
        }
    }

    /// The label of the value.
    pub fn to_string(&self) -> (s: String)
        ensures
            s@ == self.label(),
    {
        match self {
            Position::Master => String::from_str("Master"),
            Position::Foreman => String::from_str("Foreman"),
        }
    }

    /// Reads a key. Any other text is refused, with a message that quotes it.
    pub fn from_str(s: &str) -> (r: Result<Position, String>)
        ensures
            match r {
                Ok(v) => Self::parse(s@) == Some(v),
                Err(e) => Self::parse(s@) is None && e@ == "Invalid Position: "@ + s@,
            },
    {
        if str_eq(s, "master") {
            Ok(Position::Master)
        } else if str_eq(s, "foreman") {
            Ok(Position::Foreman)
        } else {
            Err(join2("Invalid Position: ", s))
        }
    }
}

/// Every value is read back from its own key.
pub proof fn lemma_position_key_round_trip(value: Position)
    ensures
        Position::parse(value.key()) == Some(value),
{
    reveal_strlit("master");
    reveal_strlit("foreman");
    assert("master"@.len() != "foreman"@.len());
}

impl Gender {
    /// The label of a gender, as shown to users.
    pub open spec fn label(self) -> Seq<char> {
        match self {
            Gender::Male => "Male"@,
            Gender::Female => "Female"@,
        }
    }

    /// The key of a gender in forms and query strings.
    pub open spec fn key(self) -> Seq<char> {
        match self {
            Gender::Male => "male"@,
            Gender::Female => "female"@,
        }
    }

    /// The value that a key stands for, if it is the key of any.
    pub open spec fn parse(s: Seq<char>) -> Option<Gender> {
        if s == "male"@ {
            Some(Gender::Male)
        } else if s == "female"@ {
            Some(Gender::Female)
        } else {
            None
        }
    }

    /// The label of the value.
    pub fn to_string(&self) -> (s: String)
        ensures
            s@ == self.label(),
    {
        match self {
            Gender::Male => String::from_str("Male"),
            Gender::Female => String::from_str("Female"),
        }
    }

    /// Reads a key. Any other text is refused, with a message that quotes it.
    pub fn from_str(s: &str) -> (r: Result<Gender, String>)
        ensures
            match r {
                Ok(v) => Self::parse(s@) == Some(v),
                Err(e) => Self::parse(s@) is None && e@ == "Invalid gender: "@ + s@,
            },
    {
        if str_eq(s, "male") {
            Ok(Gender::Male)
        } else if str_eq(s, "female") {
            Ok(Gender::Female)
        } else {
            Err(join2("Invalid gender: ", s))
        }
    }
}

/// Every value is read back from its own key.
pub proof fn lemma_gender_key_round_trip(value: Gender)
    ensures
        Gender::parse(value.key()) == Some(value),
{
    reveal_strlit("male");
    reveal_strlit("female");
    assert("male"@.len() != "female"@.len());
}

impl FuelType {
    /// The label of a fuel type, as shown to users.
    pub open spec fn label(self) -> Seq<char> {
        match self {
            FuelType::Gasoline => "Gasoline"@,
            FuelType::Diesel => "Diesel"@,
            FuelType::Electric => "Electric"@,
            FuelType::Hybrid => "Hybrid"@,
        }
    }

    /// The key of a fuel type in forms and query strings.
    pub open spec fn key(self) -> Seq<char> {
        match self {
            FuelType::Gasoline => "gasoline"@,
            FuelType::Diesel => "diesel"@,
            FuelType::Electric => "electric"@,
            FuelType::Hybrid => "hybrid"@,
        }
    }

    /// The value that a key stands for, if it is the key of any.
    pub open spec fn parse(s: Seq<char>) -> Option<FuelType> {
        if s == "gasoline"@ {
            Some(FuelType::Gasoline)
        } else if s == "diesel"@ {
            Some(FuelType::Diesel)
        } else if s == "electric"@ {
            Some(FuelType::Electric)
        } else if s == "hybrid"@ {
            Some(FuelType::Hybrid)
        } else {
            None
        }
    }

    /// The label of the value.
    pub fn to_string(&self) -> (s: String)
        ensures
            s@ == self.label(),
    {
        match self {
            FuelType::Gasoline => String::from_str("Gasoline"),
            FuelType::Diesel => String::from_str("Diesel"),
            FuelType::Electric => String::from_str("Electric"),
            FuelType::Hybrid => String::from_str("Hybrid"),
        }
    }

    /// Reads a key. Any other text is refused, with a message that quotes it.
    pub fn from_str(s: &str) -> (r: Result<FuelType, String>)
        ensures
            match r {
                Ok(v) => Self::parse(s@) == Some(v),
                Err(e) => Self::parse(s@) is None && e@ == "Invalid FuelType: "@ + s@,
            },
    {
        if str_eq(s, "gasoline") {
            Ok(FuelType::Gasoline)
        } else if str_eq(s, "diesel") {
            Ok(FuelType::Diesel)
        } else if str_eq(s, "electric") {
            Ok(FuelType::Electric)
        } else if str_eq(s, "hybrid") {
            Ok(FuelType::Hybrid)
        } else {
            Err(join2("Invalid FuelType: ", s))
        }
    }
}

/// Every value is read back from its own key.
pub proof fn lemma_fuel_type_key_round_trip(value: FuelType)
    ensures
        FuelType::parse(value.key()) == Some(value),
{
    reveal_strlit("gasoline");
    reveal_strlit("diesel");
    reveal_strlit("electric");
    reveal_strlit("hybrid");
    assert("gasoline"@.len() != "diesel"@.len());
    assert("gasoline"@[0] != "electric"@[0]);
    assert("gasoline"@.len() != "hybrid"@.len());
    assert("diesel"@.len() != "electric"@.len());
    assert("diesel"@[0] != "hybrid"@[0]);
    assert("electric"@.len() != "hybrid"@.len());
}

} // verus!
