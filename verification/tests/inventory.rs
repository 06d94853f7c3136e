use irlume_camera::contracts::{
    BackendKind, CameraCapabilities, CameraGeneration, CameraInstanceId, IdentityStrength,
    PhysicalCameraId, StreamRole,
};
use irlume_camera::inventory::{
    CameraDescriptor, CameraInventory, CameraInventoryError, CameraInventoryEvent,
    CameraObservation,
};

fn instance(hex: char) -> CameraInstanceId {
    CameraInstanceId::new(&hex.to_string().repeat(32)).expect("valid instance")
}

#[test]
fn generated_instance_ids_are_valid_nonzero_and_fresh() {
    let first = CameraInstanceId::generate();
    let second = CameraInstanceId::generate();

    assert!(CameraInstanceId::new(&first.as_str()).is_ok());
    assert!(CameraInstanceId::new(&second.as_str()).is_ok());
    assert_ne!(first, second);
}

fn observation(path: &str, serial: Option<&str>, roles: &[StreamRole]) -> CameraObservation {
    CameraObservation::new(
        BackendKind::UvcV4l2,
        PhysicalCameraId::new(path, serial.map(str::to_owned)).expect("valid physical id"),
        CameraCapabilities::new(roles.to_vec(), Default::default(), Vec::new())
            .expect("valid capabilities"),
    )
}

fn generation(event: &CameraInventoryEvent) -> u64 {
    event.descriptor().generation().get()
}

#[test]
fn add_refresh_and_snapshot_reorder_are_deterministic() {
    let mut inventory = CameraInventory::new();
    let a = observation("/devices/pci/a", Some("A"), &[StreamRole::Rgb]);
    let b = observation("/devices/pci/b", None, &[StreamRole::Ir]);

    let first = inventory.reconcile(vec![b.clone(), a.clone()]).unwrap();
    assert_eq!(first.len(), 2);
    assert_eq!(first[0].topology_path(), "/devices/pci/a");
    assert_eq!(first[1].topology_path(), "/devices/pci/b");
    assert!(first.iter().all(|event| event.is_added()));
    assert!(first.iter().all(|event| generation(event) == 1));
    assert_ne!(
        first[0].descriptor().camera_instance_id(),
        first[1].descriptor().camera_instance_id()
    );

    assert!(inventory.reconcile(vec![a, b]).unwrap().is_empty());
    assert_eq!(inventory.active_descriptors().len(), 2);
}

#[test]
fn remove_readd_retires_instance_and_restarts_generation() {
    let original_id = instance('1');
    let replacement_id = instance('2');
    let mut inventory = CameraInventory::with_instance_ids_for_test(vec![
        original_id.clone(),
        original_id.clone(),
        replacement_id.clone(),
    ]);
    let camera = observation("/devices/pci/camera", None, &[StreamRole::Rgb]);
    let added = inventory.reconcile(vec![camera.clone()]).unwrap();
    let stale = added[0].descriptor().clone();

    let removed = inventory.reconcile(Vec::new()).unwrap();
    assert!(removed[0].is_removed());
    assert_eq!(
        inventory.validate(&stale),
        Err(CameraInventoryError::Removed)
    );

    let readded = inventory.reconcile(vec![camera]).unwrap();
    assert!(readded[0].is_added());
    assert_eq!(generation(&readded[0]), 1);
    assert!(!inventory.is_tombstoned("/devices/pci/camera"));
    assert_ne!(
        readded[0].descriptor().camera_instance_id(),
        stale.camera_instance_id()
    );
    assert_eq!(
        readded[0].descriptor().camera_instance_id(),
        &replacement_id
    );
    assert!(inventory.is_retired(&original_id));
    assert_eq!(
        inventory.validate(&stale),
        Err(CameraInventoryError::ForeignInstance)
    );
    assert!(inventory.validate(readded[0].descriptor()).is_ok());
}

#[test]
fn security_relevant_observation_change_advances_generation() {
    let mut inventory = CameraInventory::new();
    let old = observation("/devices/pci/camera", None, &[StreamRole::Rgb]);
    let new = observation("/devices/pci/camera", Some("SERIAL"), &[StreamRole::Rgb]);
    let old_descriptor = inventory.reconcile(vec![old]).unwrap()[0]
        .descriptor()
        .clone();

    let changed = inventory.reconcile(vec![new]).unwrap();
    assert_eq!(changed.len(), 1);
    assert!(changed[0].is_changed());
    assert_eq!(generation(&changed[0]), 2);
    assert_eq!(
        changed[0].descriptor().camera_instance_id(),
        old_descriptor.camera_instance_id()
    );
    assert_eq!(
        inventory.validate(&old_descriptor),
        Err(CameraInventoryError::StaleGeneration)
    );
}

#[test]
fn topology_move_retires_old_and_adds_new_identity() {
    let mut inventory = CameraInventory::new();
    let old = observation("/devices/pci/usb1/z-old", None, &[StreamRole::Rgb]);
    let new = observation("/devices/pci/usb1/a-new", None, &[StreamRole::Rgb]);
    let stale = inventory.reconcile(vec![old]).unwrap()[0]
        .descriptor()
        .clone();
    let events = inventory.reconcile(vec![new]).unwrap();

    assert_eq!(events.len(), 2);
    assert!(events[0].is_removed());
    assert!(events[1].is_added());
    assert_eq!(generation(&events[1]), 1);
    assert_ne!(
        events[1].descriptor().camera_instance_id(),
        stale.camera_instance_id()
    );
    assert_eq!(
        inventory.validate(&stale),
        Err(CameraInventoryError::Removed)
    );
}

#[test]
fn duplicate_snapshot_fails_atomically_instead_of_overwriting() {
    let mut inventory = CameraInventory::new();
    let existing = observation("/devices/pci/existing", None, &[StreamRole::Rgb]);
    inventory.reconcile(vec![existing]).unwrap();
    let before = inventory.active_descriptors();
    let duplicate = observation("/devices/pci/duplicate", None, &[StreamRole::Ir]);

    assert!(matches!(
        inventory.reconcile(vec![duplicate.clone(), duplicate]),
        Err(CameraInventoryError::DuplicateObservation(_))
    ));
    assert_eq!(inventory.active_descriptors(), before);
}

#[test]
fn identical_serialless_units_remain_distinct_and_ambiguous() {
    let mut inventory = CameraInventory::new();
    let a = observation(
        "/devices/pci/usb1/1-1",
        None,
        &[StreamRole::Rgb, StreamRole::Ir],
    );
    let b = observation(
        "/devices/pci/usb1/1-2",
        None,
        &[StreamRole::Rgb, StreamRole::Ir],
    );

    let events = inventory.reconcile(vec![b, a]).unwrap();
    assert_eq!(events.len(), 2);
    assert_ne!(events[0].topology_path(), events[1].topology_path());
    assert_ne!(
        events[0].descriptor().camera_instance_id(),
        events[1].descriptor().camera_instance_id()
    );
    assert!(events.iter().all(|event| {
        event.descriptor().identity_strength() == IdentityStrength::Ambiguous
    }));
}

#[test]
fn validation_rejects_a_descriptor_from_another_supervisor_instance() {
    let camera = observation("/devices/pci/camera", None, &[StreamRole::Rgb]);
    let mut first = CameraInventory::new();
    let descriptor = first.reconcile(vec![camera.clone()]).unwrap()[0]
        .descriptor()
        .clone();
    let mut second = CameraInventory::new();
    second.reconcile(vec![camera]).unwrap();

    assert_eq!(
        second.validate(&descriptor),
        Err(CameraInventoryError::ForeignInstance)
    );
}

#[test]
fn validation_rejects_forged_evidence_at_the_current_generation() {
    let camera = observation("/devices/pci/camera", None, &[StreamRole::Rgb]);
    let mut inventory = CameraInventory::new();
    let descriptor = inventory.reconcile(vec![camera]).unwrap()[0]
        .descriptor()
        .clone();
    let forged = CameraDescriptor::new(
        descriptor.backend(),
        descriptor.physical_id().clone(),
        descriptor.camera_instance_id().clone(),
        descriptor.generation(),
        CameraCapabilities::new(vec![StreamRole::Ir], Default::default(), Vec::new()).unwrap(),
    );

    assert_eq!(
        inventory.validate(&forged),
        Err(CameraInventoryError::DescriptorMismatch)
    );
}

#[test]
fn instance_id_collisions_retry_across_active_cameras() {
    let first = instance('c');
    let second = instance('d');
    let mut inventory = CameraInventory::with_instance_ids_for_test(vec![
        first.clone(),
        first.clone(),
        second.clone(),
    ]);
    let a = observation("/devices/a", None, &[StreamRole::Rgb]);
    let b = observation("/devices/b", None, &[StreamRole::Ir]);

    let events = inventory.reconcile(vec![a, b]).unwrap();
    assert_eq!(events[0].descriptor().camera_instance_id(), &first);
    assert_eq!(events[1].descriptor().camera_instance_id(), &second);
}

#[test]
fn instance_id_collisions_retry_across_retired_instances() {
    let removed_id = instance('e');
    let replacement_id = instance('f');
    let mut inventory = CameraInventory::with_instance_ids_for_test(vec![
        removed_id.clone(),
        removed_id,
        replacement_id.clone(),
    ]);
    inventory
        .reconcile(vec![observation("/devices/old", None, &[StreamRole::Rgb])])
        .unwrap();
    inventory.reconcile(Vec::new()).unwrap();

    let added = inventory
        .reconcile(vec![observation("/devices/new", None, &[StreamRole::Rgb])])
        .unwrap();
    assert_eq!(added[0].descriptor().camera_instance_id(), &replacement_id);
}

#[test]
fn instance_id_exhaustion_fails_atomically() {
    let repeated = instance('c');
    let mut inventory = CameraInventory::with_instance_ids_for_test(vec![repeated]);
    let existing = observation("/devices/a", None, &[StreamRole::Rgb]);
    inventory.reconcile(vec![existing.clone()]).unwrap();
    let before = inventory.active_descriptors();
    let new = observation("/devices/b", None, &[StreamRole::Ir]);

    assert_eq!(
        inventory.reconcile(vec![existing, new]),
        Err(CameraInventoryError::InstanceIdExhausted)
    );
    assert_eq!(inventory.active_descriptors(), before);
}

#[test]
fn generation_exhaustion_retires_instance_without_wrap() {
    let old = observation("/devices/pci/camera", None, &[StreamRole::Rgb]);
    let changed = observation("/devices/pci/camera", Some("SERIAL"), &[StreamRole::Rgb]);
    let original_id = instance('8');
    let replacement_id = instance('9');
    let mut inventory = CameraInventory::with_active_for_test(
        old,
        original_id.clone(),
        CameraGeneration::new(u64::MAX).unwrap(),
        replacement_id.clone(),
    );

    let events = inventory.reconcile(vec![changed]).unwrap();
    assert_eq!(events.len(), 1);
    assert!(events[0].is_changed());
    assert_eq!(events[0].descriptor().camera_instance_id(), &replacement_id);
    assert_eq!(generation(&events[0]), 1);
    assert!(inventory.is_retired(&original_id));
}

// --- laws on concrete values ---------------------------------------------------------------

#[test]
fn active_descriptors_are_exactly_the_accepted_ones() {
    let mut inventory = CameraInventory::new();
    let a = observation("/devices/a", None, &[StreamRole::Rgb]);
    let b = observation("/devices/b", Some("B"), &[StreamRole::Ir]);
    inventory.reconcile(vec![a, b.clone()]).unwrap();
    let both = inventory.active_descriptors();
    assert!(both.iter().all(|descriptor| inventory.validate(descriptor).is_ok()));
    inventory.reconcile(vec![b]).unwrap();
    assert_eq!(
        inventory.validate(&both[0]),
        Err(CameraInventoryError::Removed)
    );
    assert!(inventory.validate(&both[1]).is_ok());
}

#[test]
fn a_retired_id_never_comes_back() {
    let once = instance('a');
    let mut inventory =
        CameraInventory::with_instance_ids_for_test(vec![once.clone(), instance('b')]);
    inventory
        .reconcile(vec![observation("/devices/x", None, &[StreamRole::Rgb])])
        .unwrap();
    inventory.reconcile(Vec::new()).unwrap();
    assert!(inventory.is_retired(&once));
    inventory
        .reconcile(vec![observation("/devices/x", None, &[StreamRole::Rgb])])
        .unwrap();
    assert!(inventory.is_retired(&once));
    assert!(inventory
        .active_descriptors()
        .iter()
        .all(|descriptor| descriptor.camera_instance_id() != &once));
}

#[test]
fn instance_id_text_reads_back() {
    let id = CameraInstanceId::new("0123456789abcdef0123456789abcdef").expect("valid");
    assert_eq!(id.as_str(), "0123456789abcdef0123456789abcdef");
    assert_eq!(CameraInstanceId::new(&id.as_str()), Ok(id));
    for wrong in ["", "0", "0123456789abcdef0123456789abcdeg"] {
        assert!(CameraInstanceId::new(wrong).is_err(), "{wrong}");
    }
    assert!(CameraInstanceId::new(&"0".repeat(32)).is_err());
}

#[test]
fn contract_values_refuse_what_they_cannot_mean() {
    assert!(CameraGeneration::new(0).is_err());
    assert!(CameraGeneration::new(u64::MAX).unwrap().next().is_err());
    assert_eq!(CameraGeneration::initial().next().unwrap().get(), 2);
    assert!(PhysicalCameraId::new("", None).is_err());
    assert!(CameraCapabilities::new(Vec::new(), Vec::new(), Vec::new()).is_err());
}

#[test]
fn every_part_of_the_capabilities_counts_as_a_change() {
    let path = "/devices/pci/camera";
    let offering = |features: &[&str], formats: &[&str]| {
        let names = |list: &[&str]| list.iter().map(|name| name.to_string()).collect::<Vec<_>>();
        CameraObservation::new(
            BackendKind::UvcV4l2,
            PhysicalCameraId::new(path, None).expect("valid physical id"),
            CameraCapabilities::new(vec![StreamRole::Ir], names(features), names(formats))
                .expect("valid capabilities"),
        )
    };
    let mut inventory = CameraInventory::new();
    assert!(inventory.reconcile(vec![offering(&[], &[])]).unwrap()[0].is_added());
    for (features, formats) in [
        (&["torch"][..], &[][..]),
        (&["torch"][..], &["GREY"][..]),
        (&["torch"][..], &["GREY", "Y16"][..]),
        (&["torch"][..], &["Y16", "GREY"][..]),
    ] {
        let events = inventory.reconcile(vec![offering(features, formats)]).unwrap();
        assert_eq!(events.len(), 1);
        assert!(events[0].is_changed());
        assert!(inventory
            .reconcile(vec![offering(features, formats)])
            .unwrap()
            .is_empty());
    }
    assert_eq!(inventory.active_descriptors()[0].generation().get(), 5);
}

#[test]
fn the_second_reconciliation_draws_where_the_first_stopped() {
    let mut inventory = CameraInventory::with_instance_ids_for_test(vec![
        instance('1'),
        instance('1'),
        instance('2'),
        instance('2'),
        instance('3'),
    ]);
    let a = observation("/devices/pci/a", None, &[StreamRole::Rgb]);
    let b = observation("/devices/pci/b", None, &[StreamRole::Rgb]);
    let c = observation("/devices/pci/c", None, &[StreamRole::Rgb]);
    inventory.reconcile(vec![b.clone(), a.clone()]).unwrap();
    inventory.reconcile(vec![a, b, c]).unwrap();
    let ids: Vec<CameraInstanceId> = inventory
        .active_descriptors()
        .iter()
        .map(|descriptor| *descriptor.camera_instance_id())
        .collect();
    assert_eq!(ids, [instance('1'), instance('2'), instance('3')]);
}
