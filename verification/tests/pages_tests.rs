use rtmemlock::pages::{page_offsets, reserve_process_memory, touch_pages, ReserveError};

#[test]
fn page_offsets_multiple_of_page() {
    let offs = page_offsets(8192, 4096);
    assert_eq!(offs, vec![0, 4096]);
}

#[test]
fn page_offsets_each_page_once() {
    let offs = page_offsets(5 * 4096, 4096);
    assert_eq!(offs.len(), 5);
    for (k, off) in offs.iter().enumerate() {
        assert_eq!(*off, k * 4096);
        assert_eq!(*off / 4096, k);
    }
    for k1 in 0..offs.len() {
        for k2 in 0..offs.len() {
            if k1 != k2 {
                assert_ne!(offs[k1], offs[k2]);
            }
        }
    }
}

#[test]
fn page_offsets_hundred_mib() {
    let offs = page_offsets(104857600, 4096);
    assert_eq!(offs.len(), 25600);
    assert_eq!(offs[0], 0);
    assert_eq!(offs[25599], 25599 * 4096);
}

#[test]
fn page_offsets_rounds_up_partial_page() {
    let offs = page_offsets(4097, 4096);
    assert_eq!(offs, vec![0, 4096]);
}

#[test]
fn page_offsets_smaller_than_one_page() {
    assert_eq!(page_offsets(1, 4096), vec![0]);
    assert_eq!(page_offsets(4095, 4096), vec![0]);
}

#[test]
fn page_offsets_empty_region() {
    assert_eq!(page_offsets(0, 4096), Vec::<usize>::new());
}

#[test]
fn touch_pages_zeroes_every_page_start() {
    let mut buf = vec![0xAAu8; 10000];
    let count = touch_pages(&mut buf, 4096);
    assert_eq!(count, 3);
    assert_eq!(buf.len(), 10000);
    assert_eq!(buf[0], 0);
    assert_eq!(buf[4096], 0);
    assert_eq!(buf[8192], 0);
    assert_eq!(buf[1], 0xAA);
    assert_eq!(buf[4095], 0xAA);
    assert_eq!(buf[9999], 0xAA);
}

#[test]
fn touch_pages_single_byte_region() {
    let mut buf = vec![7u8];
    let count = touch_pages(&mut buf, 4096);
    assert_eq!(count, 1);
    assert_eq!(buf[0], 0);
}

#[test]
fn touch_pages_empty_region() {
    let mut buf: Vec<u8> = Vec::new();
    assert_eq!(touch_pages(&mut buf, 4096), 0);
}

#[test]
fn reserve_process_memory_counts_pages() {
    assert_eq!(reserve_process_memory(8193, 4096), Ok(3));
    assert_eq!(reserve_process_memory(4096, 4096), Ok(1));
    assert_eq!(reserve_process_memory(1, 4096), Ok(1));
    assert_eq!(reserve_process_memory(0, 4096), Ok(0));
}

#[test]
fn reserve_process_memory_reports_out_of_memory() {
    assert_eq!(
        reserve_process_memory(usize::MAX, 4096),
        Err(ReserveError::OutOfMemory)
    );
}
