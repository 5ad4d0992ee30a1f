use onyx_core_builders::general::{
    FuelType, Gender, Position, Profession, Qualification, RiskLevel, SiteType,
};
use onyx_core_builders::tasks::TaskStatus;

#[test]
fn site_types_read_from_their_keys() {
    assert_eq!(SiteType::from_str("power_plant"), Ok(SiteType::PowerPlant));
    assert_eq!(SiteType::from_str("road"), Ok(SiteType::Road));
    assert_eq!(SiteType::from_str("housing"), Ok(SiteType::Housing));
    assert_eq!(SiteType::from_str("bridge"), Ok(SiteType::Bridge));
    assert_eq!(SiteType::from_str("park"), Ok(SiteType::Park));
}

#[test]
fn unknown_keys_are_refused_with_the_key_quoted() {
    assert_eq!(SiteType::from_str("powerplant"), Err(String::from("Invalid SiteType: powerplant")));
    assert_eq!(SiteType::from_str("Road"), Err(String::from("Invalid SiteType: Road")));
    assert_eq!(SiteType::from_str(""), Err(String::from("Invalid SiteType: ")));
    assert_eq!(RiskLevel::from_str("meidum"), Err(String::from("Invalid RiskLevel: meidum")));
    assert_eq!(Profession::from_str("pilot"), Err(String::from("Invalid Profession: pilot")));
    assert_eq!(Qualification::from_str("x"), Err(String::from("Invalid Qualification: x")));
    assert_eq!(Position::from_str("boss"), Err(String::from("Invalid Position: boss")));
    assert_eq!(Gender::from_str("other"), Err(String::from("Invalid gender: other")));
    assert_eq!(FuelType::from_str("coal"), Err(String::from("Invalid FuelType: coal")));
    assert_eq!(TaskStatus::from_str("done"), Err(String::from("Invalid TaskStatus: done")));
}

#[test]
fn the_other_enumerations_read_from_their_keys() {
    assert_eq!(RiskLevel::from_str("low"), Ok(RiskLevel::Low));
    assert_eq!(RiskLevel::from_str("medium"), Ok(RiskLevel::Meidum));
    assert_eq!(RiskLevel::from_str("high"), Ok(RiskLevel::High));
    assert_eq!(Profession::from_str("electrician"), Ok(Profession::Electrician));
    assert_eq!(Profession::from_str("plumber"), Ok(Profession::Plumber));
    assert_eq!(Profession::from_str("welder"), Ok(Profession::Welder));
    assert_eq!(Profession::from_str("driver"), Ok(Profession::Driver));
    assert_eq!(Profession::from_str("mason"), Ok(Profession::Mason));
    assert_eq!(Qualification::from_str("technician"), Ok(Qualification::Technician));
    assert_eq!(Qualification::from_str("technologist"), Ok(Qualification::Technologist));
    assert_eq!(Qualification::from_str("engineer"), Ok(Qualification::Engineer));
    assert_eq!(Position::from_str("master"), Ok(Position::Master));
    assert_eq!(Position::from_str("foreman"), Ok(Position::Foreman));
    assert_eq!(Gender::from_str("male"), Ok(Gender::Male));
    assert_eq!(Gender::from_str("female"), Ok(Gender::Female));
    assert_eq!(FuelType::from_str("gasoline"), Ok(FuelType::Gasoline));
    assert_eq!(FuelType::from_str("diesel"), Ok(FuelType::Diesel));
    assert_eq!(FuelType::from_str("electric"), Ok(FuelType::Electric));
    assert_eq!(FuelType::from_str("hybrid"), Ok(FuelType::Hybrid));
    assert_eq!(TaskStatus::from_str("planned"), Ok(TaskStatus::Planned));
    assert_eq!(TaskStatus::from_str("in_progress"), Ok(TaskStatus::InProgress));
    assert_eq!(TaskStatus::from_str("completed"), Ok(TaskStatus::Completed));
}

#[test]
fn labels() {
    assert_eq!(SiteType::PowerPlant.to_string(), "Power Plant");
    assert_eq!(SiteType::Road.to_string(), "Road");
    assert_eq!(SiteType::Housing.to_string(), "Housing");
    assert_eq!(SiteType::Bridge.to_string(), "Bridge");
    assert_eq!(SiteType::Park.to_string(), "Park");
    assert_eq!(RiskLevel::Low.to_string(), "Low");
    assert_eq!(RiskLevel::Meidum.to_string(), "Medium");
    assert_eq!(RiskLevel::High.to_string(), "High");
    assert_eq!(Profession::Electrician.to_string(), "Electrician");
    assert_eq!(Profession::Mason.to_string(), "Mason");
    assert_eq!(Qualification::Technologist.to_string(), "Technologist");
    assert_eq!(Position::Master.to_string(), "Master");
    assert_eq!(Position::Foreman.to_string(), "Foreman");
    assert_eq!(Gender::Male.to_string(), "Male");
    assert_eq!(Gender::Female.to_string(), "Female");
    assert_eq!(FuelType::Gasoline.to_string(), "Gasoline");
    assert_eq!(FuelType::Hybrid.to_string(), "Hybrid");
}
