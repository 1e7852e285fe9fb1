use hunt::fanotify::{
    check_setup, handle_event, init_flags, mark_flags, poll_step, watch_mask, ChannelError, Event,
    PollError, PollStep, SetupError, SetupStage,
};
use hunt::fanotify_header::{InfoType, FAN_DELETE_SELF, FAN_NOFD};

fn delete_self_record() -> Vec<u8> {
    let mut b = Vec::new();
    b.extend_from_slice(&24u32.to_le_bytes());
    b.push(3); // version
    b.push(0); // reserved
    b.extend_from_slice(&24u16.to_le_bytes());
    b.extend_from_slice(&(FAN_DELETE_SELF as u64).to_le_bytes());
    b.extend_from_slice(&FAN_NOFD.to_le_bytes());
    b.extend_from_slice(&1u32.to_le_bytes());
    b
}

#[test]
fn setup_failure_on_non_directory_path() {
    // A path that is not a directory makes the open stage fail with ENOTDIR
    // (20 on Linux); setup reports it as a SetupError and the poll loop is
    // never reached.
    let r = check_setup(SetupStage::OpenDir, -1, 20);
    assert_eq!(r, Err(SetupError::OpenFailed(20)));
}

#[test]
fn setup_failures_carry_their_stage() {
    assert_eq!(
        check_setup(SetupStage::Init, -1, 1),
        Err(SetupError::InitFailed(1))
    );
    assert_eq!(
        check_setup(SetupStage::Mark, -1, 2),
        Err(SetupError::MarkFailed(2))
    );
}

#[test]
fn setup_success_passes_the_descriptor_through() {
    assert_eq!(check_setup(SetupStage::OpenDir, 7, 0), Ok(7));
    assert_eq!(check_setup(SetupStage::Init, 0, 0), Ok(0));
}

#[test]
fn poll_step_read_error_is_fatal() {
    let buf = [0u8; 64];
    let r = poll_step(-1, 11, &buf);
    assert_eq!(r, Err(PollError::Channel(ChannelError::ReadFailed(11))));
}

#[test]
fn poll_step_zero_read_ends_the_stream() {
    let buf = [0u8; 64];
    assert_eq!(poll_step(0, 0, &buf), Ok(PollStep::EndOfStream));
}

#[test]
fn poll_step_delivers_decoded_events_in_order() {
    let mut buf = delete_self_record();
    buf.extend_from_slice(&delete_self_record());
    let n = buf.len() as isize;
    match poll_step(n, 0, &buf) {
        Ok(PollStep::Delivered(events)) => {
            assert_eq!(
                events,
                vec![
                    Event::Deleted("FAN_DELETE_SELF".to_owned()),
                    Event::Deleted("FAN_DELETE_SELF".to_owned()),
                ]
            );
        }
        other => panic!("expected delivered events, got {:?}", other),
    }
}

#[test]
fn poll_step_surfaces_decode_errors() {
    let mut buf = delete_self_record();
    buf[4] = 9; // corrupt the version
    let n = buf.len() as isize;
    match poll_step(n, 0, &buf) {
        Err(PollError::Decode(_)) => {}
        other => panic!("expected a decode error, got {:?}", other),
    }
}

#[test]
fn init_flags_report_names_with_directory_ids() {
    let f = init_flags();
    assert_eq!(f, 0xe31);
    // Reporting names requires reporting directory ids.
    assert!(f & 0x800 != 0 && f & 0x400 != 0);
}

#[test]
fn mark_flags_and_watch_mask_values() {
    assert_eq!(mark_flags(), 0x9);
    assert_eq!(watch_mask(), 0x4800_0fc0);
}

#[test]
fn info_type_wire_values() {
    assert_eq!(InfoType::from_wire(1), Some(InfoType::FAN_EVENT_INFO_TYPE_FID));
    assert_eq!(
        InfoType::from_wire(2),
        Some(InfoType::FAN_EVENT_INFO_TYPE_DFID_NAME)
    );
    assert_eq!(InfoType::from_wire(5), Some(InfoType::FAN_EVENT_INFO_TYPE_ERROR));
    assert_eq!(InfoType::from_wire(0), None);
    assert_eq!(InfoType::from_wire(6), None);
}

#[test]
fn events_render_as_delivery_lines() {
    assert_eq!(
        handle_event(&Event::Created("a.txt".to_owned())),
        "Create(a.txt)"
    );
    assert_eq!(
        handle_event(&Event::Deleted("b.txt".to_owned())),
        "Delete(b.txt)"
    );
    assert_eq!(
        handle_event(&Event::Moved("old".to_owned(), "new".to_owned())),
        "old -> new"
    );
    assert_eq!(
        handle_event(&Event::Unrecognized("40".to_owned())),
        "Unrecognized(0x40)"
    );
}
