use snescli::errors::EstablishError;
use snescli::establish::{Establisher, EstablishEffect, EstablishEvent};

#[test]
fn begin_opens_session() {
    let (st, effs) = Establisher::begin(None);
    assert_eq!(st, Establisher::Opening { requested: None });
    assert_eq!(effs, vec![EstablishEffect::OpenSession]);
}

#[test]
fn explicit_device_skips_enumeration() {
    let (st, _) = Establisher::begin(Some("SD2SNES COM3".to_string()));
    let (st, effs) = st.step(EstablishEvent::OpenedOk);
    assert_eq!(st, Establisher::Attaching { device: "SD2SNES COM3".to_string() });
    assert_eq!(
        effs,
        vec![
            EstablishEffect::Print { line: "Attaching to SD2SNES COM3.".to_string() },
            EstablishEffect::Attach { device: "SD2SNES COM3".to_string() },
        ]
    );
}

#[test]
fn default_selection_enumerates() {
    let (st, _) = Establisher::begin(None);
    let (st, effs) = st.step(EstablishEvent::OpenedOk);
    assert_eq!(st, Establisher::Enumerating);
    assert_eq!(effs, vec![EstablishEffect::EnumerateDevices]);
}

#[test]
fn default_selection_attaches_to_first() {
    let (st, _) = Establisher::begin(None);
    let (st, _) = st.step(EstablishEvent::OpenedOk);
    let devices = vec!["first".to_string(), "second".to_string(), "third".to_string()];
    let (st, effs) = st.step(EstablishEvent::DevicesOk { devices });
    assert_eq!(st, Establisher::Attaching { device: "first".to_string() });
    assert_eq!(
        effs,
        vec![
            EstablishEffect::Print { line: "Attaching to first.".to_string() },
            EstablishEffect::Attach { device: "first".to_string() },
        ]
    );
    let (st, effs) = st.step(EstablishEvent::AttachedOk);
    assert_eq!(st, Establisher::Attached { device: "first".to_string() });
    assert!(effs.is_empty());
}

#[test]
fn empty_device_list_fails_without_attach() {
    let (st, _) = Establisher::begin(None);
    let (st, _) = st.step(EstablishEvent::OpenedOk);
    let (st, effs) = st.step(EstablishEvent::DevicesOk { devices: vec![] });
    assert_eq!(st, Establisher::Failed { error: EstablishError::NoDevicesFound });
    assert!(effs.is_empty());
}

#[test]
fn open_failure_is_fatal() {
    let (st, _) = Establisher::begin(None);
    let (st, effs) = st.step(EstablishEvent::OpenedErr);
    assert_eq!(st, Establisher::Failed { error: EstablishError::ConnectionFailed });
    assert!(effs.is_empty());
}

#[test]
fn enumeration_failure_is_fatal() {
    let (st, _) = Establisher::begin(None);
    let (st, _) = st.step(EstablishEvent::OpenedOk);
    let (st, effs) = st.step(EstablishEvent::DevicesErr);
    assert_eq!(st, Establisher::Failed { error: EstablishError::EnumerationFailed });
    assert!(effs.is_empty());
}

#[test]
fn attach_rejection_is_fatal() {
    let (st, _) = Establisher::begin(Some("ghost".to_string()));
    let (st, _) = st.step(EstablishEvent::OpenedOk);
    let (st, effs) = st.step(EstablishEvent::AttachedErr);
    assert_eq!(st, Establisher::Failed { error: EstablishError::AttachFailed });
    assert!(effs.is_empty());
}
