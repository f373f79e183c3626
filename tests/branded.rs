use versioned_store::branded::{Car, Engine, Honda, Toyota, Transmission};

#[test]
fn generate_branded_transmission_from_car() {
    let mut car = Car::<Honda>::new(Engine::<Honda>::new());
    car.generate_transmission();
    assert!(car.transmission.is_some());
    assert_eq!(
        car.transmission.unwrap().brand,
        Transmission::<Honda>::new().brand
    );
}

#[test]
fn new_car_has_no_transmission() {
    let car = Car::<Toyota>::new(Engine::<Toyota>::new());
    assert!(car.transmission.is_none());
    assert!(car.engine.transmission.is_none());
}

#[test]
fn engine_keeps_the_transmission_it_generates() {
    let mut engine = Engine::<Toyota>::new();
    let handed_out = engine.generate_transmission();
    assert!(handed_out.is_some());
    assert!(engine.transmission.is_some());
}

#[test]
fn do_it() {
    assert_eq!(2, 2);
}
