use vstd::prelude::*;

use crate::jwks::opt_string_view;

verus! {

/// The link between a user and a car they own.
pub struct UserCar {
    pub firebase_user_id: String,
    pub car_id: i32,
}

/// One maintenance record of a car.  Dates are held as seconds since the
/// Unix epoch.
pub struct Maintenance {
    pub maint_id: Option<i32>,
    pub car_id: i32,
    pub maint_type: String,
    pub maint_title: String,
    pub maint_date: i64,
    pub maint_description: String,
    pub created_at: Option<i64>,
    pub updated_at: Option<i64>,
}

/// The display title that belongs to a maintenance type, for the types the
/// service knows.
pub open spec fn spec_maintenance_title(t: Seq<char>) -> Option<Seq<char>> {
    if t == "Oil Change"@ {
        Some("オイル交換"@)
    } else if t == "Oil Filter Change"@ {
        Some("オイルエレメント交換"@)
    } else if t == "Headlight Change"@ {
        Some("ヘッドライト交換"@)
    } else if t == "Position Light Change"@ {
        Some("ポジションライト交換"@)
    } else if t == "Fog Light Change"@ {
        Some("フォグライト交換"@)
    } else if t == "Turn Signal Change"@ {
        Some("ウインカー交換"@)
    } else if t == "Brake Light Change"@ {
        Some("ブレーキライト交換"@)
    } else if t == "License Plate Light Change"@ {
        Some("ナンバー灯交換"@)
    } else if t == "Backup Light Change"@ {
        Some("バックライト交換"@)
    } else if t == "Car Wash"@ {
        Some("洗車"@)
    } else if t == "Wiper Blade Change"@ {
        Some("ワイパーブレード交換"@)
    } else if t == "Brake Pad Change"@ {
        Some("ブレーキパッド交換"@)
    } else if t == "Brake Disc Change"@ {
        Some("ブレーキディスク交換"@)
    } else if t == "Tire Change"@ {
        Some("タイヤ交換"@)
    } else if t == "Battery Change"@ {
        Some("バッテリー交換"@)
    } else if t == "Timing Belt Change"@ {
        Some("タイミングベルト交換"@)
    } else if t == "Coolant Refill"@ {
        Some("クーラント補充"@)
    } else if t == "Washer Fluid Refill"@ {
        Some("ウォッシャー液補充"@)
    } else {
        None
    }
}

/// Looks the display title of a maintenance type up.
pub fn maintenance_title(maint_type: &str) -> (r: Option<String>)
    ensures
        opt_string_view(r) == spec_maintenance_title(maint_type@),
{
    let t = String::from_str(maint_type);
    if t.eq(&String::from_str("Oil Change")) {
        Some(String::from_str("オイル交換"))
    } else if t.eq(&String::from_str("Oil Filter Change")) {
        Some(String::from_str("オイルエレメント交換"))
    } else if t.eq(&String::from_str("Headlight Change")) {
        Some(String::from_str("ヘッドライト交換"))
    } else if t.eq(&String::from_str("Position Light Change")) {
        Some(String::from_str("ポジションライト交換"))
    } else if t.eq(&String::from_str("Fog Light Change")) {
        Some(String::from_str("フォグライト交換"))
    } else if t.eq(&String::from_str("Turn Signal Change")) {
        Some(String::from_str("ウインカー交換"))
    } else if t.eq(&String::from_str("Brake Light Change")) {
        Some(String::from_str("ブレーキライト交換"))
    } else if t.eq(&String::from_str("License Plate Light Change")) {
        Some(String::from_str("ナンバー灯交換"))
    } else if t.eq(&String::from_str("Backup Light Change")) {
        Some(String::from_str("バックライト交換"))
    } else if t.eq(&String::from_str("Car Wash")) {
        Some(String::from_str("洗車"))
    } else if t.eq(&String::from_str("Wiper Blade Change")) {
        Some(String::from_str("ワイパーブレード交換"))
    } else if t.eq(&String::from_str("Brake Pad Change")) {
        Some(String::from_str("ブレーキパッド交換"))
    } else if t.eq(&String::from_str("Brake Disc Change")) {
        Some(String::from_str("ブレーキディスク交換"))
    } else if t.eq(&String::from_str("Tire Change")) {
        Some(String::from_str("タイヤ交換"))
    } else if t.eq(&String::from_str("Battery Change")) {
        Some(String::from_str("バッテリー交換"))
    } else if t.eq(&String::from_str("Timing Belt Change")) {
        Some(String::from_str("タイミングベルト交換"))
    } else if t.eq(&String::from_str("Coolant Refill")) {
        Some(String::from_str("クーラント補充"))
    } else if t.eq(&String::from_str("Washer Fluid Refill")) {
        Some(String::from_str("ウォッシャー液補充"))
    } else {
        None
    }
}

/// The title a maintenance record ends up with: records of type `"Other"`
/// keep their own title; records of a known type take that type's display
/// title; records of an unknown type keep their own title too.
pub open spec fn spec_applied_title(t: Seq<char>, title: Seq<char>) -> Seq<char> {
    if t == "Other"@ {
        title
    } else {
        match spec_maintenance_title(t) {
            Some(x) => x,
            None => title,
        }
    }
}

/// Normalises a maintenance record before it is stored: fills in the
/// display title that belongs to the record's type, leaving every other
/// field, and records of type `"Other"` or of an unknown type, unchanged.
pub fn apply_maintenance_logic(maintenance: Maintenance) -> (r: Maintenance)
    ensures
        r.maint_id == maintenance.maint_id,
        r.car_id == maintenance.car_id,
        r.maint_type@ == maintenance.maint_type@,
        r.maint_title@ == spec_applied_title(maintenance.maint_type@, maintenance.maint_title@),
        r.maint_date == maintenance.maint_date,
        r.maint_description@ == maintenance.maint_description@,
        r.created_at == maintenance.created_at,
        r.updated_at == maintenance.updated_at,
{
    let mut maintenance = maintenance;
    if maintenance.maint_type.eq(&String::from_str("Other")) {
        maintenance
    } else {
        match maintenance_title(maintenance.maint_type.as_str()) {
            Some(title) => {
                maintenance.maint_title = title;
                maintenance
            },
            None => maintenance,
        }
    }
}

} // verus!
