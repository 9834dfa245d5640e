use rlisp::{Environment, Error, Number, Object};

fn number(x: f64) -> Object {
    Object::Number(Number::from_bits(x.to_bits()))
}

#[test]
fn test_assign() {
    let mut env = Environment::new();
    env.define("a".to_string(), Object::Nil, false).unwrap();
    assert_eq!(env.get(&"a".to_string()).unwrap(), Object::Nil);

    env.assign(&"a".to_string(), number(1.0)).unwrap();
    assert_eq!(env.get(&"a".to_string()).unwrap(), number(1.0));
}

#[test]
fn test_const_with_nil() {
    let mut env = Environment::new();
    let out = env.define("a".to_string(), Object::Nil, true);
    assert!(out.is_err());
}

#[test]
fn const_without_value_binds_nothing() {
    let mut env = Environment::new();
    let out = env.define("a".to_string(), Object::Nil, true);
    assert_eq!(
        out,
        Err(Error::Syntax("cannot declare a constant without a value".to_string()))
    );
    assert_eq!(env.get(&"a".to_string()), Err(Error::Name("a".to_string())));
}

#[test]
fn constants_keep_their_value() {
    let mut env = Environment::new();
    env.define("x".to_string(), number(1.0), true).unwrap();
    let out = env.assign(&"x".to_string(), number(2.0));
    assert_eq!(
        out,
        Err(Error::Syntax("cannot reassign a constant variable".to_string()))
    );
    let again = env.define("x".to_string(), number(3.0), false);
    assert_eq!(
        again,
        Err(Error::Syntax("cannot reassign a constant variable".to_string()))
    );
    assert_eq!(env.get(&"x".to_string()).unwrap(), number(1.0));
}

#[test]
fn redefinition_replaces() {
    let mut env = Environment::new();
    env.define("x".to_string(), number(1.0), false).unwrap();
    env.define("y".to_string(), number(5.0), false).unwrap();
    env.define("x".to_string(), Object::Boolean(true), false).unwrap();
    assert_eq!(env.get(&"x".to_string()).unwrap(), Object::Boolean(true));
    assert_eq!(env.get(&"y".to_string()).unwrap(), number(5.0));
}

#[test]
fn lookup_goes_outwards() {
    let mut env = Environment::new();
    env.define("x".to_string(), number(1.0), false).unwrap();
    env.define("y".to_string(), number(2.0), false).unwrap();
    let global = env.current();
    env.push_scope(global);
    let inner = env.current();
    assert_ne!(inner, global);
    env.define("x".to_string(), number(10.0), false).unwrap();
    assert_eq!(env.get(&"x".to_string()).unwrap(), number(10.0));
    assert_eq!(env.get(&"y".to_string()).unwrap(), number(2.0));
    assert_eq!(env.assign(&"y".to_string(), number(3.0)).unwrap(), number(3.0));
    assert_eq!(env.get(&"z".to_string()), Err(Error::Name("z".to_string())));
    assert_eq!(
        env.assign(&"z".to_string(), Object::Nil),
        Err(Error::Name("z".to_string()))
    );
    env.enter(global);
    assert_eq!(env.get(&"x".to_string()).unwrap(), number(1.0));
    assert_eq!(env.get(&"y".to_string()).unwrap(), number(3.0));
    env.enter(99);
    assert_eq!(env.current(), global);
}
