use readbench::config::Config;
use readbench::dispatch::dispatch_role;
use readbench::dispatch::RoleCommand;

#[test]
fn missing_argument_prints_usage() {
    let c = dispatch_role(None);
    match c {
        RoleCommand::Usage(m) => {
            assert_eq!(m, "ERROR: Please specify either 'client' or 'server'");
        }
        other => panic!("expected a usage message, got {:?}", other),
    }
}

#[test]
fn bogus_argument_names_the_argument() {
    let c = dispatch_role(Some(String::from("bogus")));
    match c {
        RoleCommand::Usage(m) => {
            assert_eq!(
                m,
                "ERROR: Please specify either 'client' or 'server' (received 'bogus')"
            );
        }
        other => panic!("expected a usage message, got {:?}", other),
    }
}

#[test]
fn client_and_server_arguments_select_their_roles() {
    assert_eq!(
        dispatch_role(Some(String::from("client"))),
        RoleCommand::RunClient
    );
    assert_eq!(
        dispatch_role(Some(String::from("server"))),
        RoleCommand::RunServer
    );
}

#[test]
fn default_config_matches_the_compiled_in_constants() {
    let c = Config::default();
    assert_eq!(c.address, "localhost:3333");
    assert_eq!(c.total_bytes, 1_000_000);
}
