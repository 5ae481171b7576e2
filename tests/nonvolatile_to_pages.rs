use tock_core::nonvolatile_to_pages::{Completion, NonvolatileToPages, PageOp, State};
use tock_core::return_code::ReturnCode;

const P: usize = 16;

fn flash_byte(address: usize) -> u8 {
    (address * 7 + 3) as u8
}

fn page_contents(n: usize) -> Vec<u8> {
    (0..P).map(|i| flash_byte(n * P + i)).collect()
}

#[test]
fn read_one_full_page() {
    let mut bridge = NonvolatileToPages::new(vec![0; P]);
    let req = bridge.read(vec![0; P], 0, P).unwrap();
    assert_eq!(req.op, PageOp::ReadPage);
    assert_eq!(req.page_number, 0);
    assert_eq!(bridge.current_state(), State::Read);
    assert!(!bridge.holds_page());
    let mut page = req.page;
    page.copy_from_slice(&page_contents(0));
    match bridge.read_complete(page) {
        Completion::ReadDone(buf, len) => {
            assert_eq!(len, P);
            assert_eq!(buf, page_contents(0));
        }
        other => panic!("unexpected {:?}", other),
    }
    assert_eq!(bridge.current_state(), State::Idle);
    assert!(bridge.holds_page());
}

#[test]
fn read_spanning_three_pages() {
    let mut bridge = NonvolatileToPages::new(vec![0; P]);
    let length = 2 * P + 5;
    let mut req = bridge.read(vec![0; length], 10, length).unwrap();
    let mut pages_read = Vec::new();
    let result = loop {
        assert_eq!(req.op, PageOp::ReadPage);
        pages_read.push(req.page_number);
        let mut page = req.page;
        page.copy_from_slice(&page_contents(req.page_number));
        match bridge.read_complete(page) {
            Completion::Next(next) => req = next,
            Completion::ReadDone(buf, len) => {
                assert_eq!(len, length);
                break buf;
            }
            other => panic!("unexpected {:?}", other),
        }
    };
    assert_eq!(pages_read, vec![0, 1, 2]);
    for (i, b) in result.iter().enumerate() {
        assert_eq!(*b, flash_byte(10 + i));
    }
    assert_eq!(bridge.current_state(), State::Idle);
}

#[test]
fn read_while_busy_is_refused() {
    let mut bridge = NonvolatileToPages::new(vec![0; P]);
    let req = bridge.read(vec![0; 4], 3, 4).unwrap();
    match bridge.read(vec![9; 8], 0, 8) {
        Err((code, buf)) => {
            assert_eq!(code, ReturnCode::EBUSY);
            assert_eq!(buf, vec![9; 8]);
        }
        Ok(_) => panic!("second read admitted"),
    }
    assert_eq!(bridge.current_state(), State::Read);
    let mut page = req.page;
    page.copy_from_slice(&page_contents(0));
    match bridge.read_complete(page) {
        Completion::ReadDone(buf, len) => {
            assert_eq!(len, 4);
            assert_eq!(buf, vec![flash_byte(3), flash_byte(4), flash_byte(5), flash_byte(6)]);
        }
        other => panic!("unexpected {:?}", other),
    }
}

#[test]
fn read_longer_than_buffer_is_invalid() {
    let mut bridge = NonvolatileToPages::new(vec![0; P]);
    match bridge.read(vec![0; 4], 0, 5) {
        Err((code, _)) => assert_eq!(code, ReturnCode::EINVAL),
        Ok(_) => panic!("admitted"),
    }
    match bridge.read(vec![0; 4], usize::MAX - 1, 4) {
        Err((code, _)) => assert_eq!(code, ReturnCode::EINVAL),
        Ok(_) => panic!("admitted"),
    }
    assert_eq!(bridge.current_state(), State::Idle);
    assert!(bridge.holds_page());
}

#[test]
fn empty_read_finishes_after_one_page() {
    let mut bridge = NonvolatileToPages::new(vec![0; P]);
    let req = bridge.read(Vec::new(), 40, 0).unwrap();
    assert_eq!(req.page_number, 2);
    match bridge.read_complete(req.page) {
        Completion::ReadDone(buf, len) => {
            assert!(buf.is_empty());
            assert_eq!(len, 0);
        }
        other => panic!("unexpected {:?}", other),
    }
}

#[test]
fn unexpected_completion_is_ignored() {
    let mut bridge = NonvolatileToPages::new(vec![0; P]);
    match bridge.read_complete(vec![5; P]) {
        Completion::Ignored(p) => assert_eq!(p, vec![5; P]),
        other => panic!("unexpected {:?}", other),
    }
    match bridge.write_complete(vec![6; P]) {
        Completion::Ignored(p) => assert_eq!(p, vec![6; P]),
        other => panic!("unexpected {:?}", other),
    }
    assert_eq!(bridge.current_state(), State::Idle);
}

#[test]
fn write_is_read_modify_write() {
    let mut storage: Vec<u8> = (0..3 * P).map(flash_byte).collect();
    let before = storage.clone();
    let mut bridge = NonvolatileToPages::new(vec![0; P]);
    let data: Vec<u8> = (0..28).map(|i| 200 + i as u8).collect();
    let mut req = bridge.write(data.clone(), 12, 28).unwrap();
    let mut ops = Vec::new();
    let done = loop {
        ops.push((req.op, req.page_number));
        let n = req.page_number;
        let completion = match req.op {
            PageOp::ReadPage => {
                let mut page = req.page;
                page.copy_from_slice(&storage[n * P..(n + 1) * P]);
                bridge.read_complete(page)
            }
            PageOp::WritePage => {
                storage[n * P..(n + 1) * P].copy_from_slice(&req.page);
                bridge.write_complete(req.page)
            }
        };
        match completion {
            Completion::Next(next) => req = next,
            Completion::WriteDone(buf, len) => break (buf, len),
            other => panic!("unexpected {:?}", other),
        }
    };
    assert_eq!(
        ops,
        vec![
            (PageOp::ReadPage, 0),
            (PageOp::WritePage, 0),
            (PageOp::ReadPage, 1),
            (PageOp::WritePage, 1),
            (PageOp::ReadPage, 2),
            (PageOp::WritePage, 2),
        ]
    );
    assert_eq!(done.0, data);
    assert_eq!(done.1, 28);
    for a in 0..3 * P {
        if (12..40).contains(&a) {
            assert_eq!(storage[a], data[a - 12]);
        } else {
            assert_eq!(storage[a], before[a]);
        }
    }
    assert_eq!(bridge.current_state(), State::Idle);
    assert!(bridge.holds_page());
}

#[test]
fn write_while_busy_is_refused() {
    let mut bridge = NonvolatileToPages::new(vec![0; P]);
    let _req = bridge.write(vec![1; 2], 0, 2).unwrap();
    assert_eq!(bridge.current_state(), State::WriteFetch);
    match bridge.write(vec![2; 2], 0, 2) {
        Err((code, buf)) => {
            assert_eq!(code, ReturnCode::EBUSY);
            assert_eq!(buf, vec![2; 2]);
        }
        Ok(_) => panic!("admitted"),
    }
    match bridge.read(vec![3; 2], 0, 2) {
        Err((code, _)) => assert_eq!(code, ReturnCode::EBUSY),
        Ok(_) => panic!("admitted"),
    }
    assert_eq!(bridge.current_state(), State::WriteFetch);
}
