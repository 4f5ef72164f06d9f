//! The flash key-value store, driven through an asynchronous flash
//! controller that becomes ready one call late, as the hardware would.

use bms_gateway::kv::{
    AsyncTicKV, ErrorCode, FlashController, HASH_OFFSET, LEN_OFFSET, VERSION, VERSION_OFFSET,
};
use std::collections::hash_map::DefaultHasher;
use std::hash::{Hash, Hasher};

const MAIN_KEY: &[u8; 15] = b"tickv-super-key";

fn check_region_main(buf: &[u8]) {
    // Check the version
    assert_eq!(buf[VERSION_OFFSET], VERSION);

    // Check the length
    assert_eq!(buf[LEN_OFFSET], 0x80);
    assert_eq!(buf[LEN_OFFSET + 1], 15);

    // Check the hash
    assert_eq!(buf[HASH_OFFSET + 0], 0x7b);
    assert_eq!(buf[HASH_OFFSET + 1], 0xc9);
    assert_eq!(buf[HASH_OFFSET + 2], 0xf7);
    assert_eq!(buf[HASH_OFFSET + 3], 0xff);
    assert_eq!(buf[HASH_OFFSET + 4], 0x4f);
    assert_eq!(buf[HASH_OFFSET + 5], 0x76);
    assert_eq!(buf[HASH_OFFSET + 6], 0xf2);
    assert_eq!(buf[HASH_OFFSET + 7], 0x44);

    // Check the check hash
    assert_eq!(buf[HASH_OFFSET + 8], 0xbb);
    assert_eq!(buf[HASH_OFFSET + 9], 0x32);
    assert_eq!(buf[HASH_OFFSET + 10], 0x74);
    assert_eq!(buf[HASH_OFFSET + 11], 0x1d);
}

fn check_region_one(buf: &[u8]) {
    // Check the version
    assert_eq!(buf[VERSION_OFFSET], VERSION);

    // Check the length
    assert_eq!(buf[LEN_OFFSET], 0x80);
    assert_eq!(buf[LEN_OFFSET + 1], 47);

    // Check the hash
    assert_eq!(buf[HASH_OFFSET + 0], 0x81);
    assert_eq!(buf[HASH_OFFSET + 1], 0x13);
    assert_eq!(buf[HASH_OFFSET + 2], 0x7e);
    assert_eq!(buf[HASH_OFFSET + 3], 0x95);
    assert_eq!(buf[HASH_OFFSET + 4], 0x9e);
    assert_eq!(buf[HASH_OFFSET + 5], 0x93);
    assert_eq!(buf[HASH_OFFSET + 6], 0xaa);
    assert_eq!(buf[HASH_OFFSET + 7], 0x3d);

    // Check the value
    assert_eq!(buf[HASH_OFFSET + 8], 0x23);
    assert_eq!(buf[28], 0x23);
    assert_eq!(buf[42], 0x23);

    // Check the check hash
    assert_eq!(buf[43], 0xfd);
    assert_eq!(buf[44], 0x24);
    assert_eq!(buf[45], 0xf0);
    assert_eq!(buf[46], 0x07);
}

fn check_region_two(buf: &[u8]) {
    // Check the version
    assert_eq!(buf[VERSION_OFFSET], VERSION);

    // Check the length
    assert_eq!(buf[LEN_OFFSET], 0x80);
    assert_eq!(buf[LEN_OFFSET + 1], 47);

    // Check the hash
    assert_eq!(buf[HASH_OFFSET + 0], 0x9d);
    assert_eq!(buf[HASH_OFFSET + 1], 0xd3);
    assert_eq!(buf[HASH_OFFSET + 2], 0x71);
    assert_eq!(buf[HASH_OFFSET + 3], 0x45);
    assert_eq!(buf[HASH_OFFSET + 4], 0x05);
    assert_eq!(buf[HASH_OFFSET + 5], 0xc2);
    assert_eq!(buf[HASH_OFFSET + 6], 0xf8);
    assert_eq!(buf[HASH_OFFSET + 7], 0x66);

    // Check the value
    assert_eq!(buf[HASH_OFFSET + 8], 0x23);
    assert_eq!(buf[28], 0x23);
    assert_eq!(buf[42], 0x23);

    // Check the check hash
    assert_eq!(buf[43], 0x1b);
    assert_eq!(buf[44], 0x53);
    assert_eq!(buf[45], 0xf9);
    assert_eq!(buf[46], 0x54);
}

fn get_hashed_key(unhashed_key: &[u8]) -> u64 {
    let mut hash_function = DefaultHasher::new();
    unhashed_key.hash(&mut hash_function);
    hash_function.finish()
}

// An example flash controller that stores data and pretends reads and
// erases are asynchronous: the first touch of a new region is not
// ready.
struct FlashCtrl {
    buf: [[u8; 1024]; 64],
    run: u8,
    async_read_region: usize,
    async_erase_region: usize,
}

impl FlashCtrl {
    fn new() -> Self {
        Self {
            buf: [[0xFF; 1024]; 64],
            run: 0,
            async_read_region: 100,
            async_erase_region: 100,
        }
    }
}

impl FlashController<1024> for FlashCtrl {
    fn read_region(
        &mut self,
        region_number: usize,
        buf: &mut [u8; 1024],
    ) -> Result<(), ErrorCode> {
        println!("Read from region: {}", region_number);

        if self.async_read_region != region_number {
            // Pretend that we aren't ready
            self.async_read_region = region_number;
            println!("  Not ready");
            return Err(ErrorCode::ReadNotReady(region_number));
        }

        for (i, b) in buf.iter_mut().enumerate() {
            *b = self.buf[region_number][i];
        }

        Ok(())
    }

    fn write(&mut self, address: usize, buf: &[u8]) -> Result<(), ErrorCode> {
        println!(
            "Write to address: {:#x}, region: {}",
            address,
            address / 1024
        );

        for (i, d) in buf.iter().enumerate() {
            self.buf[address / 1024][(address % 1024) + i] = *d;
        }

        // Check to see if we are adding a key
        if buf.len() > 1 {
            if self.run == 0 {
                println!("Writing main key: {:#x?}", buf);
                check_region_main(buf);
            } else if self.run == 1 {
                println!("Writing key ONE: {:#x?}", buf);
                check_region_one(buf);
            } else if self.run == 2 {
                println!("Writing key TWO: {:#x?}", buf);
                check_region_two(buf);
            }
        }

        self.run += 1;

        Ok(())
    }

    fn erase_region(&mut self, region_number: usize) -> Result<(), ErrorCode> {
        println!("Erase region: {}", region_number);

        if self.async_erase_region != region_number {
            // Pretend that we aren't ready
            self.async_erase_region = region_number;
            return Err(ErrorCode::EraseNotReady(region_number));
        }

        for i in 0..1024 {
            self.buf[region_number][i] = 0xFF;
        }

        Ok(())
    }
}

#[test]
fn test_simple_append() {
    let read_buf: [u8; 1024] = [0; 1024];
    let mut hash_function = DefaultHasher::new();
    MAIN_KEY.hash(&mut hash_function);

    let mut tickv = AsyncTicKV::<FlashCtrl, 1024>::new(FlashCtrl::new(), read_buf, 0x1000);

    let mut ret = tickv.initialise(hash_function.finish());
    while ret.is_err() {
        // There is no actual delay in the test, just continue now
        let (r, _buf, _len) = tickv.continue_operation();
        ret = r;
    }

    let value: [u8; 32] = [0x23; 32];

    let ret = tickv.append_key(get_hashed_key(b"ONE"), &value, 32);
    match ret {
        Err(ErrorCode::ReadNotReady(reg)) => {
            // There is no actual delay in the test, just continue now
            let region = tickv.tickv.controller.buf[reg];
            tickv.set_read_buffer(&region);
            tickv.continue_operation().0.unwrap();
        }
        Ok(_) => {}
        _ => unreachable!(),
    }

    let ret = tickv.append_key(get_hashed_key(b"TWO"), &value, 32);
    match ret {
        Err(ErrorCode::ReadNotReady(reg)) => {
            // There is no actual delay in the test, just continue now
            let region = tickv.tickv.controller.buf[reg];
            tickv.set_read_buffer(&region);
            tickv.continue_operation().0.unwrap();
        }
        Ok(_) => {}
        _ => unreachable!(),
    }
}

#[test]
fn test_double_append() {
    let read_buf: [u8; 1024] = [0; 1024];
    let mut hash_function = DefaultHasher::new();
    MAIN_KEY.hash(&mut hash_function);

    let mut tickv = AsyncTicKV::<FlashCtrl, 1024>::new(FlashCtrl::new(), read_buf, 0x10000);

    let mut ret = tickv.initialise(hash_function.finish());
    while ret.is_err() {
        // There is no actual delay in the test, just continue now
        let (r, _buf, _len) = tickv.continue_operation();
        ret = r;
    }

    let value: [u8; 32] = [0x23; 32];
    let mut buf: [u8; 32] = [0; 32];

    println!("Add key ONE");
    let ret = tickv.append_key(get_hashed_key(b"ONE"), &value, 32);
    match ret {
        Err(ErrorCode::ReadNotReady(reg)) => {
            // There is no actual delay in the test, just continue now
            let region = tickv.tickv.controller.buf[reg];
            tickv.set_read_buffer(&region);
            tickv.continue_operation().0.unwrap();
        }
        Ok(_) => {}
        _ => unreachable!(),
    }

    println!("Get key ONE");
    tickv.get_key(get_hashed_key(b"ONE"), &mut buf).unwrap();

    println!("Get non-existant key TWO");
    let ret = tickv.get_key(get_hashed_key(b"TWO"), &mut buf);
    match ret {
        Err(ErrorCode::ReadNotReady(reg)) => {
            // There is no actual delay in the test, just continue now
            let region = tickv.tickv.controller.buf[reg];
            tickv.set_read_buffer(&region);
            assert_eq!(tickv.continue_operation().0, Err(ErrorCode::KeyNotFound));
        }
        Err(ErrorCode::KeyNotFound) => {}
        _ => unreachable!(),
    }

    println!("Add key ONE again");
    let ret = tickv.append_key(get_hashed_key(b"ONE"), &value, 32);
    match ret {
        Err(ErrorCode::ReadNotReady(reg)) => {
            // There is no actual delay in the test, just continue now
            let region = tickv.tickv.controller.buf[reg];
            tickv.set_read_buffer(&region);
            assert_eq!(
                tickv.continue_operation().0,
                Err(ErrorCode::KeyAlreadyExists)
            );
        }
        Err(ErrorCode::KeyAlreadyExists) => {}
        _ => unreachable!(),
    }

    println!("Add key TWO");
    let ret = tickv.append_key(get_hashed_key(b"TWO"), &value, 32);
    match ret {
        Err(ErrorCode::ReadNotReady(reg)) => {
            // There is no actual delay in the test, just continue now
            let region = tickv.tickv.controller.buf[reg];
            tickv.set_read_buffer(&region);
            tickv.continue_operation().0.unwrap();
        }
        Ok(_) => {}
        _ => unreachable!(),
    }

    println!("Get key ONE");
    let ret = tickv.get_key(get_hashed_key(b"ONE"), &mut buf);
    match ret {
        Err(ErrorCode::ReadNotReady(reg)) => {
            // There is no actual delay in the test, just continue now
            let region = tickv.tickv.controller.buf[reg];
            tickv.set_read_buffer(&region);
            tickv.continue_operation().0.unwrap();
        }
        Ok(_) => {}
        _ => unreachable!(),
    }

    println!("Get key TWO");
    let ret = tickv.get_key(get_hashed_key(b"TWO"), &mut buf);
    match ret {
        Err(ErrorCode::ReadNotReady(reg)) => {
            // There is no actual delay in the test, just continue now
            let region = tickv.tickv.controller.buf[reg];
            tickv.set_read_buffer(&region);
            tickv.continue_operation().0.unwrap();
        }
        Ok(_) => {}
        _ => unreachable!(),
    }

    println!("Get non-existant key THREE");
    let ret = tickv.get_key(get_hashed_key(b"THREE"), &mut buf);
    match ret {
        Err(ErrorCode::ReadNotReady(reg)) => {
            // There is no actual delay in the test, just continue now
            let region = tickv.tickv.controller.buf[reg];
            tickv.set_read_buffer(&region);
            assert_eq!(tickv.continue_operation().0, Err(ErrorCode::KeyNotFound));
        }
        _ => unreachable!(),
    }

    match tickv.get_key(get_hashed_key(b"THREE"), &mut buf) {
        Err(ErrorCode::KeyNotFound) => {}
        _ => {
            panic!("Expected ErrorCode::KeyNotFound");
        }
    }
}

#[test]
fn test_append_and_delete() {
    let read_buf: [u8; 1024] = [0; 1024];
    let mut hash_function = DefaultHasher::new();
    MAIN_KEY.hash(&mut hash_function);

    let mut tickv = AsyncTicKV::<FlashCtrl, 1024>::new(FlashCtrl::new(), read_buf, 0x10000);

    let mut ret = tickv.initialise(hash_function.finish());
    while ret.is_err() {
        // There is no actual delay in the test, just continue now
        let (r, _buf, _len) = tickv.continue_operation();
        ret = r;
    }

    let value: [u8; 32] = [0x23; 32];
    let mut buf: [u8; 32] = [0; 32];

    println!("Add key ONE");
    let ret = tickv.append_key(get_hashed_key(b"ONE"), &value, 32);
    match ret {
        Err(ErrorCode::ReadNotReady(reg)) => {
            // There is no actual delay in the test, just continue now
            let region = tickv.tickv.controller.buf[reg];
            tickv.set_read_buffer(&region);
            tickv.continue_operation().0.unwrap();
        }
        Ok(_) => {}
        _ => unreachable!(),
    }

    println!("Get key ONE");
    tickv.get_key(get_hashed_key(b"ONE"), &mut buf).unwrap();

    println!("Delete Key ONE");
    tickv.invalidate_key(get_hashed_key(b"ONE")).unwrap();

    println!("Get non-existant key ONE");
    match tickv.get_key(get_hashed_key(b"ONE"), &mut buf) {
        Err(ErrorCode::KeyNotFound) => {}
        _ => {
            panic!("Expected ErrorCode::KeyNotFound");
        }
    }

    println!("Try to delete Key ONE Again");
    assert_eq!(
        tickv.invalidate_key(get_hashed_key(b"ONE")),
        Err(ErrorCode::KeyNotFound)
    );
}

#[test]
fn test_garbage_collect() {
    let read_buf: [u8; 1024] = [0; 1024];
    let mut hash_function = DefaultHasher::new();
    MAIN_KEY.hash(&mut hash_function);

    let mut tickv = AsyncTicKV::<FlashCtrl, 1024>::new(FlashCtrl::new(), read_buf, 0x10000);

    let mut ret = tickv.initialise(hash_function.finish());
    while ret.is_err() {
        // There is no actual delay in the test, just continue now
        let (r, _buf, _len) = tickv.continue_operation();
        ret = r;
    }

    let value: [u8; 32] = [0x23; 32];
    let mut buf: [u8; 32] = [0; 32];

    println!("Garbage collect empty flash");
    let mut ret = tickv.garbage_collect();
    while ret.is_err() {
        match ret {
            Err(ErrorCode::ReadNotReady(reg)) => {
                // There is no actual delay in the test, just continue now
                let region = tickv.tickv.controller.buf[reg];
                tickv.set_read_buffer(&region);
                ret = match tickv.continue_operation().0 {
                    Ok(_) => Ok(0),
                    Err(e) => Err(e),
                };
            }
            Ok(num) => {
                assert_eq!(num, 0);
            }
            _ => unreachable!(),
        }
    }

    println!("Add key ONE");
    let ret = tickv.append_key(get_hashed_key(b"ONE"), &value, 32);
    match ret {
        Err(ErrorCode::ReadNotReady(reg)) => {
            // There is no actual delay in the test, just continue now
            let region = tickv.tickv.controller.buf[reg];
            tickv.set_read_buffer(&region);
            tickv.continue_operation().0.unwrap();
        }
        Ok(_) => {}
        _ => unreachable!(),
    }

    println!("Garbage collect flash with valid key");
    let mut ret = tickv.garbage_collect();
    while ret.is_err() {
        match ret {
            Err(ErrorCode::ReadNotReady(reg)) => {
                // There is no actual delay in the test, just continue now
                let region = tickv.tickv.controller.buf[reg];
                tickv.set_read_buffer(&region);
                ret = match tickv.continue_operation().0 {
                    Ok(_) => Ok(0),
                    Err(e) => Err(e),
                };
            }
            Ok(num) => {
                assert_eq!(num, 0);
            }
            _ => unreachable!(),
        }
    }

    println!("Delete Key ONE");
    let ret = tickv.invalidate_key(get_hashed_key(b"ONE"));
    match ret {
        Err(ErrorCode::ReadNotReady(reg)) => {
            // There is no actual delay in the test, just continue now
            let region = tickv.tickv.controller.buf[reg];
            tickv.set_read_buffer(&region);
            tickv.continue_operation().0.unwrap();
        }
        Ok(_) => {}
        _ => unreachable!("ret: {:?}", ret),
    }

    println!("Garbage collect flash with deleted key");
    let mut ret = tickv.garbage_collect();
    while ret.is_err() {
        match ret {
            Err(ErrorCode::ReadNotReady(reg)) => {
                // There is no actual delay in the test, just continue now
                let region = tickv.tickv.controller.buf[reg];
                tickv.set_read_buffer(&region);
                ret = match tickv.continue_operation().0 {
                    Ok(_) => Ok(0),
                    Err(e) => Err(e),
                };
            }
            Err(ErrorCode::EraseNotReady(_reg)) => {
                // There is no actual delay in the test, just continue now
                ret = match tickv.continue_operation().0 {
                    Ok(_) => Ok(0),
                    Err(e) => Err(e),
                };
            }
            Ok(num) => {
                assert_eq!(num, 1024);
            }
            _ => unreachable!("ret: {:?}", ret),
        }
    }

    println!("Get non-existant key ONE");
    let ret = tickv.get_key(get_hashed_key(b"ONE"), &mut buf);
    match ret {
        Err(ErrorCode::ReadNotReady(reg)) => {
            // There is no actual delay in the test, just continue now
            let region = tickv.tickv.controller.buf[reg];
            tickv.set_read_buffer(&region);
            assert_eq!(tickv.continue_operation().0, Err(ErrorCode::KeyNotFound));
        }
        Err(ErrorCode::KeyNotFound) => {}
        _ => unreachable!("ret: {:?}", ret),
    }

    println!("Add Key ONE");
    tickv
        .append_key(get_hashed_key(b"ONE"), &value, 32)
        .unwrap();
}

#[test]
fn get_returns_stored_value() {
    let read_buf: [u8; 1024] = [0; 1024];
    let mut hash_function = DefaultHasher::new();
    MAIN_KEY.hash(&mut hash_function);

    let mut tickv = AsyncTicKV::<FlashCtrl, 1024>::new(FlashCtrl::new(), read_buf, 0x10000);

    let mut ret = tickv.initialise(hash_function.finish());
    while ret.is_err() {
        let (r, _buf, _len) = tickv.continue_operation();
        ret = r;
    }

    let value: [u8; 32] = [0x23; 32];
    let ret = tickv.append_key(get_hashed_key(b"ONE"), &value, 32);
    match ret {
        Err(ErrorCode::ReadNotReady(reg)) => {
            let region = tickv.tickv.controller.buf[reg];
            tickv.set_read_buffer(&region);
            tickv.continue_operation().0.unwrap();
        }
        Ok(_) => {}
        _ => unreachable!(),
    }

    let mut buf: [u8; 32] = [0; 32];
    tickv.get_key(get_hashed_key(b"ONE"), &mut buf).unwrap();
    assert_eq!(buf, value);
}
