use deadpool::managed::{BuildError, PoolConfig, Timeouts};
use deadpool::Runtime;
use deadpool_redis_cluster::{
    build_outcome, refusal_message, Config, ConfigError, CreatePoolError, Endpoint, Manager,
    NodeAddress,
};
use redis::{ErrorKind, RedisError};

fn seed(port: u16) -> NodeAddress {
    NodeAddress::tcp("127.0.0.1".to_string(), port)
}

fn seed_with_password(port: u16, password: Option<&str>) -> NodeAddress {
    NodeAddress {
        endpoint: Endpoint::Tcp {
            host: "127.0.0.1".to_string(),
            port,
        },
        db: 0,
        username: None,
        password: password.map(|text| text.to_string()),
    }
}

fn refusal(made: Result<Manager, RedisError>) -> RedisError {
    match made {
        Ok(_) => panic!("the seed nodes were taken"),
        Err(cause) => cause,
    }
}

#[test]
fn a_tcp_node_has_no_credentials() {
    let node = NodeAddress::tcp("cache.example".to_string(), 6379);
    assert_eq!(
        node,
        NodeAddress {
            endpoint: Endpoint::Tcp {
                host: "cache.example".to_string(),
                port: 6379
            },
            db: 0,
            username: None,
            password: None,
        }
    );
}

#[test]
fn a_copy_of_a_node_equals_it() {
    let node = NodeAddress {
        endpoint: Endpoint::TcpTls {
            host: "cache.example".to_string(),
            port: 6380,
            insecure: true,
        },
        db: 2,
        username: Some("reader".to_string()),
        password: Some("secret".to_string()),
    };
    assert_eq!(node.clone(), node);
    let socket = NodeAddress {
        endpoint: Endpoint::Unix {
            path: "/run/redis.sock".to_string(),
        },
        db: 0,
        username: None,
        password: None,
    };
    assert_eq!(socket.clone(), socket);
}

#[test]
fn manager_keeps_the_seed_nodes_in_order() {
    let nodes = vec![seed(7002), seed(7000), seed(7001)];
    let manager = Manager::new(nodes.clone()).unwrap();
    assert_eq!(manager.nodes(), &nodes);
}

#[test]
fn manager_takes_an_empty_seed_list() {
    let manager = Manager::new(Vec::new()).unwrap();
    assert!(manager.nodes().is_empty());
}

#[test]
fn manager_takes_tls_nodes() {
    let node = NodeAddress {
        endpoint: Endpoint::TcpTls {
            host: "cache.example".to_string(),
            port: 6380,
            insecure: false,
        },
        db: 0,
        username: None,
        password: None,
    };
    assert!(Manager::new(vec![node, seed(7000)]).is_ok());
}

#[test]
fn manager_takes_a_shared_password() {
    let nodes = vec![
        seed_with_password(7000, Some("secret")),
        seed_with_password(7001, Some("secret")),
        seed_with_password(7002, Some("secret")),
    ];
    assert!(Manager::new(nodes).is_ok());
}

#[test]
fn manager_takes_different_users_and_databases() {
    let mut first = seed(7000);
    first.username = Some("reader".to_string());
    first.db = 1;
    let mut second = seed(7001);
    second.username = Some("writer".to_string());
    second.db = 2;
    assert!(Manager::new(vec![first, second]).is_ok());
}

#[test]
fn manager_refuses_different_passwords() {
    let nodes = vec![
        seed_with_password(7000, Some("password1")),
        seed_with_password(7001, Some("password2")),
        seed_with_password(7002, Some("password3")),
    ];
    let cause = refusal(Manager::new(nodes));
    assert_eq!(cause.kind(), ErrorKind::InvalidClientConfig);
    assert_eq!(
        cause.to_string(),
        "Cannot use different password among initial nodes."
    );
}

#[test]
fn manager_refuses_a_password_on_a_later_node_only() {
    let nodes = vec![seed(7000), seed_with_password(7001, Some("secret"))];
    assert!(Manager::new(nodes).is_err());
    let nodes = vec![seed_with_password(7000, Some("secret")), seed(7001)];
    assert!(Manager::new(nodes).is_err());
    let nodes = vec![
        seed_with_password(7000, Some("secret")),
        seed_with_password(7001, Some("secret")),
        seed_with_password(7002, Some("")),
    ];
    assert!(Manager::new(nodes).is_err());
}

#[test]
fn manager_refuses_a_unix_socket() {
    let socket = NodeAddress {
        endpoint: Endpoint::Unix {
            path: "/run/redis.sock".to_string(),
        },
        db: 0,
        username: None,
        password: None,
    };
    let cause = refusal(Manager::new(vec![socket.clone()]));
    assert_eq!(cause.kind(), ErrorKind::InvalidClientConfig);
    assert!(Manager::new(vec![seed(7000), socket]).is_err());
}

#[test]
fn from_nodes_has_no_sizing() {
    let nodes = vec![seed(7000), seed(7001)];
    let config = Config::from_nodes(nodes.clone());
    assert_eq!(config.nodes, nodes);
    assert!(config.pool.is_none());
}

#[test]
fn pool_config_is_the_given_one() {
    let mut config = Config::from_nodes(vec![seed(7000)]);
    let mut sizing = PoolConfig::new(5);
    sizing.timeouts = Timeouts::wait_millis(250);
    config.pool = Some(sizing);
    let got = config.get_pool_config();
    assert_eq!(got.max_size, 5);
    assert_eq!(got.timeouts.wait, sizing.timeouts.wait);
    assert!(got.timeouts.create.is_none());
    assert!(got.timeouts.recycle.is_none());
}

#[test]
fn pool_config_defaults_to_the_engines() {
    let config = Config::from_nodes(vec![seed(7000)]);
    let got = config.get_pool_config();
    assert_eq!(got.max_size, PoolConfig::default().max_size);
    assert!(got.timeouts.wait.is_none());
    assert!(got.timeouts.create.is_none());
    assert!(got.timeouts.recycle.is_none());
}

#[test]
fn builder_plans_a_pool_for_the_seed_nodes() {
    let nodes = vec![seed(7000), seed(7001), seed(7002)];
    let mut config = Config::from_nodes(nodes.clone());
    config.pool = Some(PoolConfig::new(5));
    let plan = match config.builder() {
        Ok(plan) => plan,
        Err(error) => panic!("the seed nodes are sound: {:?}", error),
    };
    assert_eq!(plan.manager.nodes(), &nodes);
    assert_eq!(plan.config.max_size, 5);
    assert!(plan.runtime.is_none());
    assert_eq!(config.nodes, nodes);
}

#[test]
fn builder_takes_any_capacity() {
    for capacity in [0, 1, 5, usize::MAX] {
        let mut config = Config::from_nodes(vec![seed(7000)]);
        config.pool = Some(PoolConfig::new(capacity));
        match config.builder() {
            Ok(plan) => assert_eq!(plan.config.max_size, capacity),
            Err(error) => panic!("the seed nodes are sound: {:?}", error),
        }
    }
}

#[test]
fn builder_refuses_what_the_client_refuses() {
    let config = Config::from_nodes(vec![
        seed_with_password(7000, Some("one")),
        seed_with_password(7001, Some("two")),
    ]);
    match config.builder() {
        Err(ConfigError::Redis(cause)) => {
            assert_eq!(cause.kind(), ErrorKind::InvalidClientConfig)
        }
        Ok(_) => panic!("the passwords differ"),
    }
}

#[test]
fn config_error_in_words() {
    let config = Config::from_nodes(vec![
        seed_with_password(7000, Some("one")),
        seed_with_password(7001, Some("two")),
    ]);
    match config.builder() {
        Err(error) => assert_eq!(
            error.message(),
            "Redis: Cannot use different password among initial nodes."
        ),
        Ok(_) => panic!("the passwords differ"),
    }
    let error = ConfigError::from(RedisError::from((ErrorKind::IoError, "refused", "by peer".to_string())));
    assert_eq!(error.message(), "Redis: refused: by peer");
}

#[test]
fn a_refusal_in_words() {
    assert_eq!(refusal_message("Redis URL did not parse"), "Redis: Redis URL did not parse");
    assert_eq!(refusal_message(""), "Redis: ");
}

#[test]
fn config_error_wraps_the_clients_error() {
    let ConfigError::Redis(cause) =
        ConfigError::from(RedisError::from((ErrorKind::TypeError, "not a number")));
    assert_eq!(cause.kind(), ErrorKind::TypeError);
}

#[test]
fn create_pool_binds_the_runtime() {
    let nodes = vec![seed(7000), seed(7001)];
    let mut config = Config::from_nodes(nodes.clone());
    config.pool = Some(PoolConfig::new(8));
    match config.create_pool(Some(Runtime::Tokio1)) {
        Ok(plan) => {
            assert_eq!(plan.runtime, Some(Runtime::Tokio1));
            assert_eq!(plan.config.max_size, 8);
            assert_eq!(plan.manager.nodes(), &nodes);
        }
        Err(error) => panic!("the seed nodes are sound: {:?}", error),
    }
    match config.create_pool(None) {
        Ok(plan) => {
            assert!(plan.runtime.is_none());
            assert_eq!(plan.config.max_size, 8);
        }
        Err(error) => panic!("the seed nodes are sound: {:?}", error),
    }
}

#[test]
fn create_pool_reports_bad_seed_nodes_as_configuration() {
    for capacity in [0, 1, 5] {
        let mut config = Config::from_nodes(vec![
            seed_with_password(7000, None),
            seed_with_password(7001, Some("two")),
        ]);
        config.pool = Some(PoolConfig::new(capacity));
        match config.create_pool(Some(Runtime::Tokio1)) {
            Err(CreatePoolError::Config(ConfigError::Redis(cause))) => {
                assert_eq!(cause.kind(), ErrorKind::InvalidClientConfig)
            }
            Err(CreatePoolError::Build(refusal)) => {
                panic!("bad input is no build failure: {:?}", refusal)
            }
            Ok(_) => panic!("the passwords differ"),
        }
    }
}

#[test]
fn create_pool_takes_sound_seed_nodes_at_any_capacity() {
    for capacity in [0, 1, 5] {
        let mut config = Config::from_nodes(vec![seed(7000), seed(7001), seed(7002)]);
        config.pool = Some(PoolConfig::new(capacity));
        assert!(config.create_pool(None).is_ok());
    }
}

#[test]
fn a_plan_bound_to_a_runtime_keeps_the_rest() {
    let nodes = vec![seed(7000)];
    let mut config = Config::from_nodes(nodes.clone());
    config.pool = Some(PoolConfig::new(3));
    let plan = match config.builder() {
        Ok(plan) => plan.runtime(Runtime::Tokio1),
        Err(error) => panic!("the seed nodes are sound: {:?}", error),
    };
    assert_eq!(plan.runtime, Some(Runtime::Tokio1));
    assert_eq!(plan.config.max_size, 3);
    assert_eq!(plan.manager.nodes(), &nodes);
}

#[test]
fn a_refused_build_is_a_build_error() {
    let refused: Result<u8, BuildError<RedisError>> = Err(BuildError::NoRuntimeSpecified(
        "Timeouts require a runtime".to_string(),
    ));
    match build_outcome(refused) {
        Err(CreatePoolError::Build(BuildError::NoRuntimeSpecified(text))) => {
            assert_eq!(text, "Timeouts require a runtime")
        }
        other => panic!("the engine's refusal is handed on, not {:?}", other),
    }
    let failed: Result<u8, BuildError<RedisError>> = Err(BuildError::Backend(RedisError::from((
        ErrorKind::IoError,
        "unreachable",
    ))));
    match build_outcome(failed) {
        Err(CreatePoolError::Build(BuildError::Backend(cause))) => {
            assert_eq!(cause.kind(), ErrorKind::IoError)
        }
        other => panic!("the engine's refusal is handed on, not {:?}", other),
    }
}

#[test]
fn a_built_pool_is_handed_on() {
    let built: Result<u8, BuildError<RedisError>> = Ok(7);
    match build_outcome(built) {
        Ok(pool) => assert_eq!(pool, 7),
        Err(error) => panic!("the pool was built: {:?}", error),
    }
}

#[test]
fn three_seeds_and_capacity_five() {
    let nodes = vec![seed(7000), seed(7001), seed(7002)];
    let mut config = Config::from_nodes(nodes.clone());
    config.pool = Some(PoolConfig::new(5));
    let plan = match config.create_pool(Some(Runtime::Tokio1)) {
        Ok(plan) => plan,
        Err(error) => panic!("the seed nodes are sound: {:?}", error),
    };
    assert_eq!(plan.manager.nodes().len(), 3);
    assert_eq!(plan.manager.nodes(), &nodes);
    assert_eq!(plan.config.max_size, 5);
    assert_eq!(plan.runtime, Some(Runtime::Tokio1));
}

#[test]
fn a_copy_of_a_configuration_equals_it() {
    let mut config = Config::from_nodes(vec![seed(7000), seed_with_password(7001, Some("secret"))]);
    config.pool = Some(PoolConfig::new(9));
    let copy = config.clone();
    assert_eq!(copy.nodes, config.nodes);
    assert_eq!(copy.pool.map(|sizing| sizing.max_size), Some(9));
    let copy = Config::from_nodes(Vec::new()).clone();
    assert!(copy.nodes.is_empty());
    assert!(copy.pool.is_none());
}

#[test]
fn pool_config_falls_back_where_none_is_given() {
    let mut config = Config::from_nodes(vec![seed(7000)]);
    assert_eq!(config.pool_config_or(PoolConfig::new(2)).max_size, 2);
    config.pool = Some(PoolConfig::new(5));
    assert_eq!(config.pool_config_or(PoolConfig::new(2)).max_size, 5);
}

#[test]
fn builder_sizes_the_pool_as_the_engine_does_where_no_sizing_is_given() {
    let config = Config::from_nodes(vec![seed(7000)]);
    match config.builder() {
        Ok(plan) => assert_eq!(plan.config.max_size, PoolConfig::default().max_size),
        Err(error) => panic!("the seed nodes are sound: {:?}", error),
    }
}

#[test]
fn a_manager_hands_out_its_client() {
    let manager = Manager::new(vec![seed(7000)]).unwrap();
    assert!(std::ptr::eq(manager.client(), manager.client()));
}
