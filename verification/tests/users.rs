use guardian_agent_linux::users::parse_system_users;

#[test]
fn passwd_lists_regular_accounts_only() {
    let content = "root:x:0:0:root:/root:/bin/bash\n\
                   alice:x:1000:1000:Alice:/home/alice:/bin/bash\r\n\
                   nobody:x:1001:1001::/:/usr/sbin/nologin\n\
                   bob:x:+1500:1500::/home/bob:/bin/sh\n\
                   big:x:60000:60000::/:/bin/sh\n\
                   short:x\n\
                   bad:x:12a4:0::/:/bin/sh\n\
                   carol:x:59999";
    let users = parse_system_users(content);
    assert_eq!(users.len(), 3);
    assert_eq!(users.get(&1000).unwrap(), "alice");
    assert_eq!(users.get(&1500).unwrap(), "bob");
    assert_eq!(users.get(&59999).unwrap(), "carol");
}

#[test]
fn passwd_edge_cases() {
    assert!(parse_system_users("").is_empty());
    assert!(parse_system_users("\n\n").is_empty());
    // A later line for the same id replaces an earlier one.
    let users = parse_system_users("a:x:2000\nb:x:2000:\n");
    assert_eq!(users.len(), 1);
    assert_eq!(users.get(&2000).unwrap(), "b");
    // A carriage return without a line feed after it stays part of the last line.
    assert!(parse_system_users("c:x:3000\r").is_empty());
    // Values beyond 32 bits and bare signs do not parse.
    assert!(parse_system_users("d:x:4294967296\ne:x:+\nf:x:-1000\n").is_empty());
    // An empty name is kept as it is.
    let users = parse_system_users(":x:1234:1234::/:/bin/sh");
    assert_eq!(users.get(&1234).unwrap(), "");
}
