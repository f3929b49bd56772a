use baseus_desktop::catalog::validate::{validate, EqSummary, ProfileSummary};
use baseus_desktop::protocol::uuids;

fn profile(id: &str, eq: Option<(usize, Vec<u8>)>) -> ProfileSummary {
    ProfileSummary { id: id.into(), eq: eq.map(|(band_count, dict_sorts)| EqSummary { band_count, dict_sorts }) }
}

#[test]
fn valid_profiles_pass() {
    let ps = vec![profile("bass-bp1-pro", Some((8, (100..112).collect()))), profile("other", None)];
    assert_eq!(validate(&ps), Ok(()));
}

#[test]
fn profile_problems_are_reported_in_order() {
    let dup = vec![profile("a", None), profile("a", None)];
    assert_eq!(validate(&dup), Err("duplicate model profile: a".to_string()));
    let bands = vec![profile("b", Some((7, vec![])))];
    assert_eq!(validate(&bands), Err("b must define eight EQ bands".to_string()));
    let sorts = vec![profile("c", Some((8, vec![1, 2, 1])))];
    assert_eq!(validate(&sorts), Err("duplicate EQ dictSort in c".to_string()));
    let first = vec![profile("d", Some((8, vec![1, 1]))), profile("d", None)];
    assert_eq!(validate(&first), Err("duplicate EQ dictSort in d".to_string()));
}

#[test]
fn gatt_uuids_parse_to_their_values() {
    assert_eq!(uuids::service(), 0x53527aa4_29f7_ae11_4e74_997334782568);
    assert_eq!(uuids::write(), 0xee684b1a_1e9b_ed3e_ee55_f894667e92ac);
    assert_eq!(uuids::notify(), 0x654b749c_e37f_ae1f_ebab_40ca133e3690);
}
