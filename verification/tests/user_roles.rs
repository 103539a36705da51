use payments_core::errors::UserErrors;
use payments_core::user_role::{
    delete_user_role, get_authorization_info, get_role, list_roles, update_user_role, AuthModule,
    RoleInfo, UserRoleRecord,
};

fn registry() -> Vec<RoleInfo> {
    vec![
        RoleInfo {
            role_id: 1,
            role_name: 100,
            permissions: 0b111,
            exposed: true,
            updatable: true,
            deletable: true,
        },
        RoleInfo {
            role_id: 2,
            role_name: 200,
            permissions: 0b1,
            exposed: false,
            updatable: false,
            deletable: false,
        },
        RoleInfo {
            role_id: 3,
            role_name: 300,
            permissions: 0b11,
            exposed: true,
            updatable: true,
            deletable: false,
        },
    ]
}

#[test]
fn listing_hides_internal_roles() {
    let listed = list_roles(&registry());
    assert_eq!(listed.len(), 2);
    assert_eq!(listed[0].role_id, 1);
    assert_eq!(listed[1].role_id, 3);
    assert_eq!(listed[0].permissions, 0b111);
}

#[test]
fn authorization_info_lists_exposed_modules() {
    let modules = vec![
        AuthModule { module: 1, description: 10, exposed: true },
        AuthModule { module: 2, description: 20, exposed: false },
        AuthModule { module: 3, description: 30, exposed: true },
    ];
    let info = get_authorization_info(&modules);
    assert_eq!(info.len(), 2);
    assert_eq!(info[0].module, 1);
    assert_eq!(info[1].module, 3);
}

#[test]
fn get_role_returns_exposed_roles_only() {
    let reg = registry();
    let resp = get_role(&reg, 1).unwrap();
    assert_eq!(resp.role_name, 100);
    assert_eq!(get_role(&reg, 2).unwrap_err(), UserErrors::InvalidRoleId);
    assert_eq!(get_role(&reg, 9).unwrap_err(), UserErrors::InvalidRoleId);
}

#[test]
fn role_update_needs_an_updatable_role() {
    let reg = registry();
    let err = update_user_role(&reg, 50, 10, 51, 2).unwrap_err();
    assert_eq!(err, UserErrors::InvalidRoleId);
    let err = update_user_role(&reg, 50, 10, 51, 9).unwrap_err();
    assert_eq!(err, UserErrors::InvalidRoleId);
}

#[test]
fn administrators_cannot_change_their_own_role() {
    let reg = registry();
    let err = update_user_role(&reg, 50, 10, 50, 1).unwrap_err();
    assert_eq!(err, UserErrors::InvalidRoleOperation);
}

#[test]
fn role_update_plan_records_the_modifier() {
    let reg = registry();
    let plan = update_user_role(&reg, 50, 10, 51, 1).unwrap();
    assert_eq!(plan.user_id, 51);
    assert_eq!(plan.merchant_id, 10);
    assert_eq!(plan.role_id, 1);
    assert_eq!(plan.modified_by, 50);
}

#[test]
fn users_cannot_delete_themselves() {
    let reg = registry();
    let roles = vec![UserRoleRecord { merchant_id: 10, role_id: 1 }];
    let err = delete_user_role(&reg, 50, 10, 50, &roles).unwrap_err();
    assert_eq!(err, UserErrors::InvalidDeleteOperation);
}

#[test]
fn deletion_needs_a_role_at_this_merchant() {
    let reg = registry();
    let roles = vec![UserRoleRecord { merchant_id: 11, role_id: 1 }];
    let err = delete_user_role(&reg, 50, 10, 51, &roles).unwrap_err();
    assert_eq!(err, UserErrors::InvalidDeleteOperation);
}

#[test]
fn deletion_needs_a_deletable_role() {
    let reg = registry();
    let roles = vec![UserRoleRecord { merchant_id: 10, role_id: 3 }];
    let err = delete_user_role(&reg, 50, 10, 51, &roles).unwrap_err();
    assert_eq!(err, UserErrors::InvalidDeleteOperation);
}

#[test]
fn deleting_the_last_role_deletes_the_user_too() {
    let reg = registry();
    let roles = vec![UserRoleRecord { merchant_id: 10, role_id: 1 }];
    let plan = delete_user_role(&reg, 50, 10, 51, &roles).unwrap();
    assert!(plan.delete_user);
    assert_eq!(plan.user_id, 51);
    assert_eq!(plan.merchant_id, 10);
}

#[test]
fn deleting_one_of_several_roles_keeps_the_user() {
    let reg = registry();
    let roles = vec![
        UserRoleRecord { merchant_id: 10, role_id: 1 },
        UserRoleRecord { merchant_id: 11, role_id: 1 },
    ];
    let plan = delete_user_role(&reg, 50, 10, 51, &roles).unwrap();
    assert!(!plan.delete_user);
}
