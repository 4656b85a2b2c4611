use tarsier::device::{select_queue_family, QueueFamily, QueueSelection};

fn fam(queue_flags: u32, surface_supported: bool) -> QueueFamily {
    QueueFamily { queue_flags, surface_supported }
}

#[test]
fn first_family_that_draws_and_presents() {
    let devices = vec![
        vec![fam(0b1, false), fam(0b110, true)],
        vec![fam(0b100, true), fam(0b111, true), fam(0b1, true)],
    ];
    assert_eq!(
        select_queue_family(&devices),
        Some(QueueSelection { device_index: 1, queue_family_index: 1 })
    );
}

#[test]
fn no_suitable_family() {
    let devices = vec![vec![fam(0b1, false)], vec![], vec![fam(0b10, true)]];
    assert_eq!(select_queue_family(&devices), None);
    assert_eq!(select_queue_family(&vec![]), None);
}
