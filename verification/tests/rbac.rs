use splinter_registry::error::CliError;
use splinter_registry::rbac::{ListRolesAction, Role, RoleOutput};

fn role(id: &str, name: &str) -> Result<Role, CliError> {
    Ok(Role { role_id: id.to_string(), display_name: name.to_string(), permissions: Vec::new() })
}

fn strings(items: &[&str]) -> Vec<String> {
    items.iter().map(|item| item.to_string()).collect()
}

#[test]
fn list_roles_as_table_by_default() {
    let roles = vec![role("admin", "Administrator"), role("reader", "Reader")];
    for format in [None, Some("human"), Some("anything")] {
        let (output, result) = ListRolesAction.run(format, &roles);
        assert_eq!(result, Ok(()));
        assert_eq!(
            output,
            RoleOutput::Table(vec![
                strings(&["ID", "DISPLAY NAME"]),
                strings(&["admin", "Administrator"]),
                strings(&["reader", "Reader"]),
            ])
        );
    }
}

#[test]
fn list_roles_as_csv() {
    let roles = vec![role("admin", "Administrator"), role("reader", "Reader")];
    let (output, result) = ListRolesAction.run(Some("csv"), &roles);
    assert_eq!(result, Ok(()));
    assert_eq!(
        output,
        RoleOutput::Csv(strings(&["ID,DISPLAY NAME", "admin,Administrator", "reader,Reader"]))
    );
}

#[test]
fn list_no_roles_shows_the_header() {
    let (output, result) = ListRolesAction.run(Some("csv"), &Vec::new());
    assert_eq!(result, Ok(()));
    assert_eq!(output, RoleOutput::Csv(strings(&["ID,DISPLAY NAME"])));
    let (output, result) = ListRolesAction.run(None, &Vec::new());
    assert_eq!(result, Ok(()));
    assert_eq!(output, RoleOutput::Table(vec![strings(&["ID", "DISPLAY NAME"])]));
}

#[test]
fn list_roles_csv_stops_at_the_first_error() {
    let roles = vec![
        role("admin", "Administrator"),
        Err(CliError::RemoteError("first".to_string())),
        role("reader", "Reader"),
        Err(CliError::RemoteError("second".to_string())),
    ];
    let (output, result) = ListRolesAction.run(Some("csv"), &roles);
    assert_eq!(result, Err(CliError::RemoteError("first".to_string())));
    assert_eq!(output, RoleOutput::Csv(strings(&["ID,DISPLAY NAME", "admin,Administrator"])));
}

#[test]
fn list_roles_table_shows_nothing_on_error() {
    let roles = vec![role("admin", "Administrator"), Err(CliError::RemoteError("x".to_string()))];
    let (output, result) = ListRolesAction.run(None, &roles);
    assert_eq!(result, Err(CliError::RemoteError("x".to_string())));
    assert_eq!(output, RoleOutput::Nothing);
}
