use auth_gate::errors::AppError;
use auth_gate::models::{apply_maintenance_logic, maintenance_title, Maintenance, UserCar};

fn record(maint_type: &str, maint_title: &str) -> Maintenance {
    Maintenance {
        maint_id: Some(7),
        car_id: 3,
        maint_type: maint_type.to_string(),
        maint_title: maint_title.to_string(),
        maint_date: 1_700_000_000,
        maint_description: "regular service".to_string(),
        created_at: None,
        updated_at: Some(1_700_000_001),
    }
}

#[test]
fn known_type_takes_its_display_title() {
    let r = apply_maintenance_logic(record("Oil Change", "whatever was sent"));
    assert_eq!(r.maint_title, "オイル交換");
    assert_eq!(r.maint_type, "Oil Change");
}

#[test]
fn other_type_keeps_its_own_title() {
    let r = apply_maintenance_logic(record("Other", "my own title"));
    assert_eq!(r.maint_title, "my own title");
}

#[test]
fn unknown_type_keeps_its_own_title() {
    let r = apply_maintenance_logic(record("Exorcism", "ghost removal"));
    assert_eq!(r.maint_title, "ghost removal");
}

#[test]
fn other_fields_pass_through_unchanged() {
    let r = apply_maintenance_logic(record("Tire Change", "old title"));
    assert_eq!(r.maint_title, "タイヤ交換");
    assert_eq!(r.maint_id, Some(7));
    assert_eq!(r.car_id, 3);
    assert_eq!(r.maint_date, 1_700_000_000);
    assert_eq!(r.maint_description, "regular service");
    assert_eq!(r.created_at, None);
    assert_eq!(r.updated_at, Some(1_700_000_001));
}

#[test]
fn title_table_maps_known_types() {
    assert_eq!(maintenance_title("Car Wash"), Some("洗車".to_string()));
    assert_eq!(
        maintenance_title("Battery Change"),
        Some("バッテリー交換".to_string())
    );
    assert_eq!(
        maintenance_title("Washer Fluid Refill"),
        Some("ウォッシャー液補充".to_string())
    );
    assert_eq!(maintenance_title("Other"), None);
    assert_eq!(maintenance_title("oil change"), None);
}

#[test]
fn app_error_keeps_its_parts() {
    let e = AppError::new(401, "auth/invalid-token".to_string(), "no".to_string());
    assert_eq!(e.status_code, 401);
    assert_eq!(e.code, "auth/invalid-token");
    assert_eq!(e.message, "no");
}

#[test]
fn user_car_links_user_and_car() {
    let uc = UserCar {
        firebase_user_id: "user-1".to_string(),
        car_id: 42,
    };
    assert_eq!(uc.firebase_user_id, "user-1");
    assert_eq!(uc.car_id, 42);
}
