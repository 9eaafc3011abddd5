use hustoa_vm::config::{CommonConfig, HustoaVmConfig, Ipv6Config};
use hustoa_vm::ipv6::Ipv6Address;
use hustoa_vm::v6pool::{PoolError, V6Pool, V6PoolItem};

fn addr(text: &str) -> Ipv6Address {
    Ipv6Address::parse(text).unwrap()
}

#[test]
fn test_v6pool_item_equality() {
    let addr1 = addr("2001:db8::1");
    let addr2 = addr("2001:db8::1");
    let domain = "test.com".to_string();

    let item1 = V6PoolItem { addr: addr1, domain: domain.clone() };
    let item2 = V6PoolItem { addr: addr2, domain };

    assert_eq!(item1, item2, "Items with same addr and domain should be equal");
}

#[test]
fn test_v6pool_item_inequality_different_addr() {
    let addr1 = addr("2001:db8::1");
    let addr2 = addr("2001:db8::2");
    let domain = "test.com".to_string();

    let item1 = V6PoolItem { addr: addr1, domain: domain.clone() };
    let item2 = V6PoolItem { addr: addr2, domain };

    assert_ne!(item1, item2, "Items with different addr should not be equal");
}

#[test]
fn test_v6pool_item_inequality_different_domain() {
    let a = addr("2001:db8::1");
    let item1 = V6PoolItem { addr: a, domain: "test1.com".to_string() };
    let item2 = V6PoolItem { addr: a, domain: "test2.com".to_string() };
    assert_ne!(item1, item2, "Items with different domain should not be equal");
}

#[test]
fn test_v6pool_insert_new() {
    let mut pool = V6Pool { pool: Vec::new() };
    let a = addr("2001:db8::1");
    let domain = "test.com".to_string();

    let item = V6PoolItem { addr: a, domain: domain.clone() };
    assert!(!pool.pool.contains(&item), "Pool should not contain item before insert");

    pool.pool.push(item);

    assert_eq!(pool.pool.len(), 1, "Pool should have 1 item");
    assert_eq!(pool.pool[0].addr, a, "Address should match");
    assert_eq!(pool.pool[0].domain, domain, "Domain should match");
}

#[test]
fn test_v6pool_insert_duplicate() {
    let mut pool = V6Pool { pool: Vec::new() };
    let item = V6PoolItem { addr: addr("2001:db8::1"), domain: "test.com".to_string() };
    pool.pool.push(item.clone());

    assert!(pool.pool.contains(&item), "Pool should contain item");
    pool.pool.push(item);

    assert_eq!(pool.pool.len(), 2, "After pushing twice, pool should have 2 items");
}

#[test]
fn test_v6pool_insert_same_addr_different_domain() {
    let mut pool = V6Pool { pool: Vec::new() };
    let a = addr("2001:db8::1");
    let domain2 = "test2.com".to_string();
    pool.pool.push(V6PoolItem { addr: a, domain: "test1.com".to_string() });

    let has_same_addr_different_domain =
        pool.pool.iter().any(|item| item.addr == a && item.domain != domain2);
    assert!(has_same_addr_different_domain, "Should detect same addr with different domain");
}

#[test]
fn test_v6pool_insert_same_domain_different_addr() {
    let mut pool = V6Pool { pool: Vec::new() };
    let addr2 = addr("2001:db8::2");
    let domain = "test.com".to_string();
    pool.pool.push(V6PoolItem { addr: addr("2001:db8::1"), domain: domain.clone() });

    let has_same_domain_different_addr =
        pool.pool.iter().any(|item| item.domain == domain && item.addr != addr2);
    assert!(has_same_domain_different_addr, "Should detect same domain with different addr");
}

#[test]
fn test_v6pool_remove_by_addr() {
    let mut pool = V6Pool { pool: Vec::new() };
    let addr1 = addr("2001:db8::1");
    let addr2 = addr("2001:db8::2");
    pool.pool.push(V6PoolItem { addr: addr1, domain: "test1.com".to_string() });
    pool.pool.push(V6PoolItem { addr: addr2, domain: "test2.com".to_string() });

    let original_len = pool.pool.len();
    pool.pool.retain(|x| x.addr != addr1);

    assert_eq!(pool.pool.len(), original_len - 1, "Pool should have 1 item after removal");
    assert_eq!(pool.pool[0].addr, addr2, "Remaining item should be addr2");
}

#[test]
fn test_v6pool_remove_by_name() {
    let mut pool = V6Pool { pool: Vec::new() };
    let domain1 = "test1.com".to_string();
    let domain2 = "test2.com".to_string();
    pool.pool.push(V6PoolItem { addr: addr("2001:db8::1"), domain: domain1.clone() });
    pool.pool.push(V6PoolItem { addr: addr("2001:db8::2"), domain: domain2.clone() });

    let original_len = pool.pool.len();
    pool.pool.retain(|x| x.domain != domain1);

    assert_eq!(pool.pool.len(), original_len - 1, "Pool should have 1 item after removal");
    assert_eq!(pool.pool[0].domain, domain2, "Remaining item should be domain2");
}

#[test]
fn test_v6pool_remove_nonexistent_addr() {
    let mut pool = V6Pool { pool: Vec::new() };
    let addr2 = addr("2001:db8::2");
    pool.pool.push(V6PoolItem { addr: addr("2001:db8::1"), domain: "test1.com".to_string() });

    let original_len = pool.pool.len();
    pool.pool.retain(|x| x.addr != addr2);

    assert_eq!(pool.pool.len(), original_len, "Pool should still have 1 item");
}

#[test]
fn test_v6pool_remove_nonexistent_name() {
    let mut pool = V6Pool { pool: Vec::new() };
    let domain2 = "test2.com".to_string();
    pool.pool.push(V6PoolItem { addr: addr("2001:db8::1"), domain: "test1.com".to_string() });

    let original_len = pool.pool.len();
    pool.pool.retain(|x| x.domain != domain2);

    assert_eq!(pool.pool.len(), original_len, "Pool should still have 1 item");
}

#[test]
fn test_v6pool_contains() {
    let mut pool = V6Pool { pool: Vec::new() };
    let item = V6PoolItem { addr: addr("2001:db8::1"), domain: "test.com".to_string() };

    assert!(!pool.pool.contains(&item), "Pool should not contain item before insert");

    pool.pool.push(item.clone());
    assert!(pool.pool.contains(&item), "Pool should contain item after insert");
}

#[test]
fn test_v6pool_multiple_items() {
    let mut pool = V6Pool { pool: Vec::new() };
    let items = vec![
        (addr("2001:db8::1"), "vm1.com".to_string()),
        (addr("2001:db8::2"), "vm2.com".to_string()),
        (addr("2001:db8::3"), "vm3.com".to_string()),
    ];

    for (a, domain) in &items {
        pool.pool.push(V6PoolItem { addr: *a, domain: domain.clone() });
    }

    assert_eq!(pool.pool.len(), 3, "Pool should have 3 items");

    for (a, domain) in &items {
        let item = V6PoolItem { addr: *a, domain: domain.clone() };
        assert!(pool.pool.contains(&item), "Pool should contain item");
    }
}

#[test]
fn test_v6pool_item_clone() {
    let item = V6PoolItem { addr: addr("2001:db8::1"), domain: "test.com".to_string() };
    let cloned = item.clone();
    assert_eq!(item, cloned, "Cloned item should equal original");
}

#[test]
fn insert_accepts_repeats_and_refuses_conflicts() {
    let mut pool = V6Pool::new();
    let a1 = addr("2001:db8::1");
    let a2 = addr("2001:db8::2");
    assert_eq!(pool.insert(&a1, &"vm1".to_string()), Ok(()));
    assert_eq!(pool.insert(&a1, &"vm1".to_string()), Ok(()));
    assert_eq!(pool.pool.len(), 1);
    assert_eq!(pool.insert(&a1, &"vm2".to_string()), Err(PoolError::SameAddrDifferentDomain));
    assert_eq!(pool.insert(&a2, &"vm1".to_string()), Err(PoolError::SameDomainDifferentAddr));
    assert_eq!(pool.pool.len(), 1);
    assert_eq!(pool.insert(&a2, &"vm2".to_string()), Ok(()));
    assert_eq!(pool.pool.len(), 2);
    assert_eq!(pool.pool[1].domain, "vm2");
}

#[test]
fn insert_reports_first_conflicting_entry() {
    let mut pool = V6Pool::new();
    pool.insert(&addr("::1"), &"a".to_string()).unwrap();
    pool.insert(&addr("::2"), &"b".to_string()).unwrap();
    // domain of the first entry, address of the second: the first entry decides
    assert_eq!(pool.insert(&addr("::2"), &"a".to_string()), Err(PoolError::SameDomainDifferentAddr));
    assert_eq!(pool.insert(&addr("::1"), &"b".to_string()), Err(PoolError::SameAddrDifferentDomain));
}

#[test]
fn removals_keep_order() {
    let mut pool = V6Pool::new();
    for (i, d) in ["a", "b", "c", "d"].iter().enumerate() {
        let text = format!("::{}", i + 1);
        pool.insert(&addr(&text), &d.to_string()).unwrap();
    }
    pool.remove_by_addr(&addr("::2"));
    assert_eq!(pool.pool.iter().map(|x| x.domain.clone()).collect::<Vec<_>>(), vec!["a", "c", "d"]);
    pool.remove_by_name(&"d".to_string());
    assert_eq!(pool.pool.iter().map(|x| x.domain.clone()).collect::<Vec<_>>(), vec!["a", "c"]);
    pool.remove_by_name(&"zzz".to_string());
    assert_eq!(pool.pool.len(), 2);
}

#[test]
fn purge_keeps_listed_domains() {
    let mut pool = V6Pool::new();
    pool.insert(&addr("::1"), &"vm1".to_string()).unwrap();
    pool.insert(&addr("::2"), &"vm2".to_string()).unwrap();
    pool.insert(&addr("::3"), &"vm3".to_string()).unwrap();
    let removed = pool.purge(&vec!["vm3".to_string(), "vm1".to_string()]);
    assert_eq!(pool.pool.iter().map(|x| x.domain.clone()).collect::<Vec<_>>(), vec!["vm1", "vm3"]);
    assert_eq!(removed.len(), 1);
    assert_eq!(removed[0].domain, "vm2");
}

#[test]
fn migrate_takes_over_address_lines() {
    let mut pool = V6Pool::new();
    pool.insert(&addr("2001:db8::9"), &"known".to_string()).unwrap();
    let count = pool.migrate_lines("2001:db8::1\n\nnot-an-address\r\n2001:db8::1\n2001:db8::9\n2001:db8::2");
    // ::1 twice (the second is already there), ::9 refused (held by `known`), ::2
    assert_eq!(count, 3);
    assert_eq!(pool.pool.len(), 3);
    assert_eq!(pool.pool[1].domain, "unknwon-2001:db8::1");
    assert_eq!(pool.pool[2].domain, "unknwon-2001:db8::2");
}

#[test]
fn flush_commands_delete_then_add() {
    let mut pool = V6Pool::new();
    pool.insert(&addr("2001:db8::1"), &"vm1".to_string()).unwrap();
    let config = HustoaVmConfig {
        common: CommonConfig::from_options(None, None, None, None, None, None),
        ipv6conf: Some(Ipv6Config {
            libvirt_interface_v6: "virbr1".to_string(),
            ipv6_bridge_mac: "52:54:00:48:8b:aa".to_string(),
            ipv6_prefix: addr("2001:db8::"),
            wan_interface: "eth0".to_string(),
        }),
    };
    let cmds = pool.flush(&config);
    assert_eq!(cmds.len(), 4);
    assert!(cmds.iter().all(|c| c.program == "ip"));
    assert_eq!(cmds[0].args, vec!["-6", "neigh", "del", "proxy", "2001:db8::1", "dev", "eth0"]);
    assert_eq!(cmds[1].args, vec!["-6", "route", "del", "2001:db8::1", "dev", "virbr1"]);
    assert_eq!(cmds[2].args, vec!["-6", "neigh", "add", "proxy", "2001:db8::1", "dev", "eth0"]);
    assert_eq!(cmds[3].args, vec!["-6", "route", "add", "2001:db8::1", "dev", "virbr1"]);
    let no_v6 = HustoaVmConfig {
        common: CommonConfig::from_options(None, None, None, None, None, None),
        ipv6conf: None,
    };
    assert!(pool.flush(&no_v6).is_empty());
}
