use je_di::{derive_from, DIContainer, FromDependency, FromWorld};
use std::cell::{Cell, RefCell};

struct World {
    username: String,
}

#[derive(Clone)]
struct Printer {
    username: String,
}

struct Looper {
    printer: Printer,
}

impl FromWorld for Printer {
    type World<'a> = World;
    type Error = String;

    fn from_world(world: &Self::World<'_>) -> Result<Self, Self::Error> {
        Ok(Self {
            username: world.username.clone(),
        })
    }
}

impl FromDependency for Looper {
    type Error = String;
    type World<'a> = World;
    type Dependency = Printer;

    fn from_dependency(
        _world: &Self::World<'_>,
        dependency: &Self::Dependency,
    ) -> Result<Self, Self::Error> {
        Ok(Self {
            printer: dependency.clone(),
        })
    }
}

#[test]
fn looper_holds_printer_of_world_user() {
    let container = DIContainer::new(World {
        username: "alice".to_string(),
    });
    let looper: Looper = container.extract().unwrap();
    assert_eq!(looper.printer.username, "alice");
}

#[test]
fn printer_copies_username() {
    let container = DIContainer::new(World {
        username: "bob".to_string(),
    });
    let printer: Printer = container.extract().unwrap();
    assert_eq!(printer.username, "bob");
    assert_eq!(container.world().username, "bob");
}

// A world that counts and records every construction made from it.
#[derive(Default)]
struct Counted {
    fail_base: bool,
    fail_second: bool,
    calls: RefCell<Vec<&'static str>>,
    derivations: Cell<usize>,
}

impl Counted {
    fn record(&self, name: &'static str) {
        self.calls.borrow_mut().push(name);
    }

    fn calls(&self) -> Vec<&'static str> {
        self.calls.borrow().clone()
    }
}

#[derive(Debug, PartialEq)]
enum Failure {
    Base,
    Second,
}

#[derive(Debug)]
struct Base(u32);

impl FromWorld for Base {
    type World<'a> = Counted;
    type Error = Failure;

    fn from_world(world: &Counted) -> Result<Self, Failure> {
        world.record("base");
        if world.fail_base {
            Err(Failure::Base)
        } else {
            Ok(Base(7))
        }
    }
}

#[derive(Debug)]
struct OnBase(u32);

impl FromDependency for OnBase {
    type Error = Failure;
    type World<'a> = Counted;
    type Dependency = Base;

    fn from_dependency(world: &Counted, dependency: &Base) -> Result<Self, Failure> {
        world.record("on_base");
        world.derivations.set(world.derivations.get() + 1);
        Ok(OnBase(dependency.0 + 1))
    }
}

#[test]
fn dependency_failure_skips_derivation() {
    let container = DIContainer::new(Counted {
        fail_base: true,
        ..Counted::default()
    });
    let r = container.extract::<OnBase>();
    assert_eq!(r.unwrap_err(), Failure::Base);
    assert_eq!(container.world().derivations.get(), 0);
    assert_eq!(container.world().calls(), vec!["base"]);
}

#[test]
fn derivation_uses_resolved_dependency() {
    let container = DIContainer::new(Counted::default());
    let r = container.extract::<OnBase>().unwrap();
    assert_eq!(r.0, 8);
    assert_eq!(container.world().calls(), vec!["base", "on_base"]);
}

#[derive(Debug)]
struct Second;

impl FromWorld for Second {
    type World<'a> = Counted;
    type Error = Failure;

    fn from_world(world: &Counted) -> Result<Self, Failure> {
        world.record("second");
        if world.fail_second {
            Err(Failure::Second)
        } else {
            Ok(Second)
        }
    }
}

#[derive(Debug)]
struct Third;

impl FromWorld for Third {
    type World<'a> = Counted;
    type Error = Failure;

    fn from_world(world: &Counted) -> Result<Self, Failure> {
        world.record("third");
        Ok(Third)
    }
}

#[test]
fn group_stops_at_failing_member() {
    let container = DIContainer::new(Counted {
        fail_second: true,
        ..Counted::default()
    });
    let r = container.extract::<(Base, Second, Third)>();
    assert_eq!(r.unwrap_err(), Failure::Second);
    assert_eq!(container.world().calls(), vec!["base", "second"]);
}

#[test]
fn group_first_member_failure_builds_nothing_else() {
    let container = DIContainer::new(Counted {
        fail_base: true,
        ..Counted::default()
    });
    let r = container.extract::<(Base, Second)>();
    assert_eq!(r.unwrap_err(), Failure::Base);
    assert_eq!(container.world().calls(), vec!["base"]);
}

#[test]
fn group_builds_members_left_to_right() {
    let container = DIContainer::new(Counted::default());
    let (base, _second, _third, on_base) =
        container.extract::<(Base, Second, Third, OnBase)>().unwrap();
    assert_eq!(base.0, 7);
    assert_eq!(on_base.0, 8);
    assert_eq!(
        container.world().calls(),
        vec!["base", "second", "third", "base", "on_base"]
    );
}

#[test]
fn nine_member_group_resolves_in_order() {
    let container = DIContainer::new(Counted::default());
    let r = container
        .extract::<(Base, Second, Third, Base, Second, Third, Base, Second, Third)>()
        .unwrap();
    assert_eq!(r.0 .0, 7);
    assert_eq!(r.6 .0, 7);
    assert_eq!(
        container.world().calls(),
        vec![
            "base", "second", "third", "base", "second", "third", "base", "second", "third"
        ]
    );
}

struct Level2(u32);
struct Level3(u32);
struct Level4(u32);
struct Level5(u32);

impl FromDependency for Level2 {
    type Error = Failure;
    type World<'a> = Counted;
    type Dependency = Base;

    fn from_dependency(world: &Counted, dependency: &Base) -> Result<Self, Failure> {
        world.record("level2");
        Ok(Level2(dependency.0 * 10))
    }
}

impl FromDependency for Level3 {
    type Error = Failure;
    type World<'a> = Counted;
    type Dependency = Level2;

    fn from_dependency(world: &Counted, dependency: &Level2) -> Result<Self, Failure> {
        world.record("level3");
        Ok(Level3(dependency.0 + 3))
    }
}

impl FromDependency for Level4 {
    type Error = Failure;
    type World<'a> = Counted;
    type Dependency = Level3;

    fn from_dependency(world: &Counted, dependency: &Level3) -> Result<Self, Failure> {
        world.record("level4");
        Ok(Level4(dependency.0 * 2))
    }
}

impl FromDependency for Level5 {
    type Error = Failure;
    type World<'a> = Counted;
    type Dependency = Level4;

    fn from_dependency(world: &Counted, dependency: &Level4) -> Result<Self, Failure> {
        world.record("level5");
        Ok(Level5(dependency.0 + 5))
    }
}

#[test]
fn deep_chain_builds_each_level_once_leaf_first() {
    let container = DIContainer::new(Counted::default());
    let top = container.extract::<Level5>().unwrap();
    assert_eq!(top.0, (7 * 10 + 3) * 2 + 5);
    assert_eq!(
        container.world().calls(),
        vec!["base", "level2", "level3", "level4", "level5"]
    );
}

#[test]
fn deep_chain_failure_at_leaf_stops_everything() {
    let container = DIContainer::new(Counted {
        fail_base: true,
        ..Counted::default()
    });
    let r = container.extract::<Level5>();
    assert!(matches!(r, Err(Failure::Base)));
    assert_eq!(container.world().calls(), vec!["base"]);
}

#[test]
fn extracting_twice_builds_chain_twice() {
    let container = DIContainer::new(Counted::default());
    let first = container.extract::<OnBase>().unwrap();
    let second = container.extract::<OnBase>().unwrap();
    assert_eq!(first.0, second.0);
    assert_eq!(container.world().derivations.get(), 2);
    assert_eq!(
        container.world().calls(),
        vec!["base", "on_base", "base", "on_base"]
    );
}

#[test]
fn derive_from_hands_back_error_without_deriving() {
    let world = Counted::default();
    let r = derive_from::<OnBase>(&world, Err(Failure::Second));
    assert_eq!(r.unwrap_err(), Failure::Second);
    assert!(world.calls().is_empty());
}

#[test]
fn derive_from_derives_from_value() {
    let world = Counted::default();
    let r = derive_from::<OnBase>(&world, Ok(Base(41))).unwrap();
    assert_eq!(r.0, 42);
    assert_eq!(world.calls(), vec!["on_base"]);
}
