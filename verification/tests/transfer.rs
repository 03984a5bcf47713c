//! Whole transfers against a system that is played here: a source, a destination with room
//! for so many bytes, and a limit on what one call moves.

use send_file::errors::OsError;
use send_file::native::{Outcome, Platform, Reply, Request, LINUX_MAX_COUNT};
use send_file::operation::Step;
use send_file::{send_file, SendFile};

/// The system behind the native call.
struct System {
    platform: Platform,
    /// The size of the source.
    size: usize,
    /// The bytes of the source, where the test follows them to the destination.
    source: Option<Vec<u8>>,
    /// What reached the destination.
    sink: Vec<u8>,
    /// The most bytes that one call moves.
    ceiling: usize,
    /// The bytes that the destination takes before it is full.
    room: usize,
    /// The error code that every call fails with from now on.
    broken: Option<i32>,
    /// The number of signals that cut the next calls short.
    signals: usize,
    /// The requests that were made.
    requests: Vec<Request>,
}

impl System {
    fn new(platform: Platform, size: usize) -> System {
        System {
            platform,
            size,
            source: None,
            sink: Vec::new(),
            ceiling: usize::MAX,
            room: usize::MAX,
            broken: None,
            signals: 0,
            requests: Vec::new(),
        }
    }

    fn with_bytes(platform: Platform, bytes: Vec<u8>) -> System {
        let mut system = System::new(platform, bytes.len());
        system.source = Some(bytes);
        system
    }

    fn failure(&self, request: Request, moved: usize, errno: i32) -> Reply {
        match self.platform {
            Platform::Linux => Reply { status: -1, value: request.offset, errno },
            Platform::MacOs | Platform::FreeBsd => Reply { status: -1, value: moved as i64, errno },
        }
    }

    fn call(&mut self, request: Request) -> Reply {
        self.requests.push(request);
        if let Some(code) = self.broken {
            return self.failure(request, 0, code);
        }
        if self.signals > 0 {
            self.signals -= 1;
            return self.failure(request, 0, libc::EINTR);
        }
        let offset = request.offset as usize;
        let left = self.size.saturating_sub(offset);
        let mut wanted = left.min(self.ceiling);
        if request.count > 0 {
            wanted = wanted.min(request.count);
        }
        let moved = wanted.min(self.room);
        if let Some(bytes) = &self.source {
            self.sink.extend_from_slice(&bytes[offset..offset + moved]);
        }
        self.room -= moved;
        match self.platform {
            Platform::Linux => {
                if moved == 0 && left > 0 {
                    self.failure(request, 0, libc::EAGAIN)
                } else {
                    Reply { status: moved as isize, value: request.offset + moved as i64, errno: 0 }
                }
            }
            Platform::MacOs | Platform::FreeBsd => {
                if moved < wanted {
                    self.failure(request, moved, libc::EAGAIN)
                } else {
                    Reply { status: 0, value: moved as i64, errno: 0 }
                }
            }
        }
    }
}

/// One poll: calls until the operation says to stop. Gives the step that ended the poll and
/// the counts that the calls of this poll reported as advanced.
fn poll<F, S>(operation: &mut SendFile<F, S>, system: &mut System) -> (Step, Vec<usize>) {
    let mut advanced = Vec::new();
    loop {
        let request = operation.request(system.platform);
        let reply = system.call(request);
        assert!(operation.accepts(system.platform, &reply));
        if reply.status != -1 {
            let count = match system.platform {
                Platform::Linux => reply.status as usize,
                Platform::MacOs | Platform::FreeBsd => reply.value as usize,
            };
            advanced.push(count);
        }
        match operation.step(system.platform, reply) {
            Step::Again => continue,
            step => return (step, advanced),
        }
    }
}

fn pattern(size: usize) -> Vec<u8> {
    (0..size).map(|i| (i * 7 + i / 251) as u8).collect()
}

const PLATFORMS: [Platform; 3] = [Platform::Linux, Platform::MacOs, Platform::FreeBsd];

#[test]
fn empty_source_is_ready_on_first_poll() {
    for platform in PLATFORMS {
        let mut system = System::with_bytes(platform, Vec::new());
        let mut operation = send_file("file", "socket");
        let (step, advanced) = poll(&mut operation, &mut system);
        assert_eq!(step, Step::Ready(Ok(0)));
        assert_eq!(advanced, vec![0]);
        assert_eq!(system.requests.len(), 1);
        assert_eq!(operation.written(), 0);
    }
}

#[test]
fn one_byte_over_the_ceiling_takes_two_advances() {
    for platform in PLATFORMS {
        let ceiling = 4096;
        let mut system = System::with_bytes(platform, pattern(ceiling + 1));
        system.ceiling = ceiling;
        let mut operation = send_file("file", "socket");
        let (step, advanced) = poll(&mut operation, &mut system);
        assert_eq!(step, Step::Ready(Ok(ceiling + 1)));
        assert_eq!(advanced, vec![ceiling, 1, 0]);
        assert_eq!(operation.written(), ceiling + 1);
        assert_eq!(system.sink, pattern(ceiling + 1));
    }
}

#[test]
fn one_byte_over_the_count_of_linux_takes_two_advances() {
    let size = LINUX_MAX_COUNT + 1;
    let mut system = System::new(Platform::Linux, size);
    let mut operation = send_file("file", "socket");
    let (step, advanced) = poll(&mut operation, &mut system);
    assert_eq!(step, Step::Ready(Ok(0x7fff_f001)));
    assert_eq!(advanced, vec![0x7fff_f000, 1, 0]);
    assert_eq!(
        system.requests,
        vec![
            Request { offset: 0, count: 0x7fff_f000 },
            Request { offset: 0x7fff_f000, count: 0x7fff_f000 },
            Request { offset: 0x7fff_f001, count: 0x7fff_f000 },
        ]
    );
}

#[test]
fn destination_never_writable_stays_pending() {
    for platform in PLATFORMS {
        let mut system = System::with_bytes(platform, pattern(100));
        system.room = 0;
        let mut operation = send_file("file", "socket");
        for _ in 0..50 {
            let (step, advanced) = poll(&mut operation, &mut system);
            assert_eq!(step, Step::Pending);
            assert_eq!(advanced, Vec::<usize>::new());
            assert_eq!(operation.written(), 0);
        }
        assert_eq!(system.requests.len(), 50);
        assert!(system.sink.is_empty());
    }
}

#[test]
fn blocking_destination_finishes_in_one_poll() {
    for platform in PLATFORMS {
        for size in [13, 446, 22_300, 44_600, 89_200, 223_000, 446_000] {
            let mut system = System::with_bytes(platform, pattern(size));
            let mut operation = send_file("file", "socket");
            let (step, _) = poll(&mut operation, &mut system);
            assert_eq!(step, Step::Ready(Ok(size)));
            assert_eq!(operation.written(), size);
            let (file, socket) = operation.into_inner();
            assert_eq!((file, socket), ("file", "socket"));
            assert_eq!(system.sink, pattern(size));
        }
    }
}

#[test]
fn non_blocking_destination_finishes_after_waiting() {
    for platform in PLATFORMS {
        for size in [13, 446, 22_300, 223_000] {
            let mut system = System::with_bytes(platform, pattern(size));
            system.room = 0;
            system.ceiling = 10_000;
            let mut operation = send_file("file", "socket");
            let mut polls = 0;
            let total = loop {
                polls += 1;
                match poll(&mut operation, &mut system).0 {
                    Step::Pending => system.room = 4_000,
                    Step::Ready(result) => break result,
                    Step::Again => unreachable!(),
                }
            };
            assert_eq!(total, Ok(size));
            assert_eq!(operation.written(), size);
            assert!(polls >= 2 + size / 4_000);
            assert_eq!(system.sink, pattern(size));
        }
    }
}

#[test]
fn whole_source_arrives_in_order_whatever_the_chunks() {
    for platform in PLATFORMS {
        for ceiling in [1, 2, 3, 7, 64, 1000] {
            for room in [1, 5, 64, 999] {
                let bytes = pattern(777);
                let mut system = System::with_bytes(platform, bytes.clone());
                system.ceiling = ceiling;
                system.room = room;
                let mut operation = send_file((), ());
                let mut reported = 0;
                let total = loop {
                    let before = operation.written();
                    let (step, advanced) = poll(&mut operation, &mut system);
                    reported += advanced.iter().sum::<usize>();
                    assert!(before <= operation.written());
                    assert!(reported <= operation.written());
                    assert!(operation.written() <= bytes.len());
                    assert_eq!(system.sink[..], bytes[..operation.written()]);
                    match step {
                        Step::Pending => system.room = room,
                        Step::Ready(result) => break result,
                        Step::Again => unreachable!(),
                    }
                };
                assert_eq!(total, Ok(777));
                assert_eq!(system.sink, bytes);
                let moving = system
                    .requests
                    .windows(2)
                    .filter(|pair| pair[0].offset < pair[1].offset)
                    .count();
                assert!(777 <= moving * ceiling);
                assert!(moving <= 777);
            }
        }
    }
}

#[test]
fn advanced_counts_sum_to_the_size_on_linux() {
    let mut system = System::with_bytes(Platform::Linux, pattern(5000));
    system.ceiling = 300;
    system.room = 1234;
    let mut operation = send_file((), ());
    let mut reported = 0;
    loop {
        let (step, advanced) = poll(&mut operation, &mut system);
        reported += advanced.iter().sum::<usize>();
        assert_eq!(reported, operation.written());
        match step {
            Step::Pending => system.room = 1234,
            Step::Ready(result) => {
                assert_eq!(result, Ok(5000));
                break;
            }
            Step::Again => unreachable!(),
        }
    }
    assert_eq!(reported, 5000);
}

#[test]
fn written_is_the_same_however_often_it_is_asked() {
    let mut system = System::with_bytes(Platform::Linux, pattern(100));
    system.room = 40;
    let mut operation = send_file((), ());
    assert_eq!(operation.written(), 0);
    assert_eq!(operation.written(), 0);
    assert_eq!(poll(&mut operation, &mut system).0, Step::Pending);
    for _ in 0..10 {
        assert_eq!(operation.written(), 40);
    }
}

#[test]
fn pending_keeps_written_and_the_next_call_starts_there() {
    let mut system = System::with_bytes(Platform::Linux, pattern(100));
    system.room = 30;
    let mut operation = send_file((), ());
    assert_eq!(poll(&mut operation, &mut system).0, Step::Pending);
    assert_eq!(operation.written(), 30);
    assert_eq!(poll(&mut operation, &mut system).0, Step::Pending);
    assert_eq!(operation.written(), 30);
    assert_eq!(operation.request(Platform::Linux).offset, 30);
    system.room = 70;
    assert_eq!(poll(&mut operation, &mut system).0, Step::Ready(Ok(100)));
    assert_eq!(system.sink, pattern(100));
    let offsets: Vec<i64> = system.requests.iter().map(|request| request.offset).collect();
    assert_eq!(offsets, vec![0, 30, 30, 30, 100]);
}

#[test]
fn count_of_a_call_that_would_block_is_kept_on_macos_and_freebsd() {
    for platform in [Platform::MacOs, Platform::FreeBsd] {
        let mut system = System::with_bytes(platform, pattern(100));
        system.room = 30;
        let mut operation = send_file((), ());
        let (step, advanced) = poll(&mut operation, &mut system);
        assert_eq!(step, Step::Pending);
        assert_eq!(advanced, Vec::<usize>::new());
        assert_eq!(system.requests.len(), 1);
        assert_eq!(operation.written(), 30);
        system.room = 70;
        assert_eq!(poll(&mut operation, &mut system).0, Step::Ready(Ok(100)));
        assert_eq!(system.sink, pattern(100));
        let offsets: Vec<i64> = system.requests.iter().map(|request| request.offset).collect();
        assert_eq!(offsets, vec![0, 30, 100]);
    }
}

#[test]
fn large_source_is_reported_once_with_its_size() {
    for platform in PLATFORMS {
        let size = 10_000_000_000;
        let mut system = System::new(platform, size);
        system.ceiling = 0x7fff_f000;
        let mut operation = send_file((), ());
        let (step, advanced) = poll(&mut operation, &mut system);
        assert_eq!(step, Step::Ready(Ok(10_000_000_000)));
        assert_eq!(advanced, vec![0x7fff_f000, 0x7fff_f000, 0x7fff_f000, 0x7fff_f000, 1_410_081_792, 0]);
        assert_eq!(operation.written(), size);
    }
}

#[test]
fn closed_destination_ends_with_its_error() {
    for platform in PLATFORMS {
        let mut system = System::with_bytes(platform, pattern(100));
        system.room = 25;
        let mut operation = send_file((), ());
        assert_eq!(poll(&mut operation, &mut system).0, Step::Pending);
        system.broken = Some(libc::EPIPE);
        let (step, advanced) = poll(&mut operation, &mut system);
        assert_eq!(step, Step::Ready(Err(OsError { code: libc::EPIPE })));
        assert_eq!(advanced, Vec::<usize>::new());
        assert_eq!(operation.written(), 25);
        assert_eq!(system.sink, pattern(100)[..25].to_vec());
    }
}

#[test]
fn invalid_descriptor_ends_the_first_poll() {
    for platform in PLATFORMS {
        let mut system = System::with_bytes(platform, pattern(10));
        system.broken = Some(libc::EBADF);
        let mut operation = send_file((), ());
        let (step, _) = poll(&mut operation, &mut system);
        assert_eq!(step, Step::Ready(Err(OsError { code: libc::EBADF })));
        assert_eq!(operation.written(), 0);
        assert_eq!(system.requests.len(), 1);
    }
}

#[test]
fn interrupted_call_is_made_again_within_the_poll() {
    for platform in PLATFORMS {
        let mut system = System::with_bytes(platform, pattern(64));
        system.signals = 3;
        let mut operation = send_file((), ());
        let (step, advanced) = poll(&mut operation, &mut system);
        assert_eq!(step, Step::Ready(Ok(64)));
        assert_eq!(advanced, vec![64, 0]);
        let offsets: Vec<i64> = system.requests.iter().map(|request| request.offset).collect();
        assert_eq!(offsets, vec![0, 0, 0, 0, 64]);
        assert_eq!(system.sink, pattern(64));
    }
}

#[test]
fn outcome_of_each_call_of_a_transfer() {
    let platform = Platform::Linux;
    let mut system = System::with_bytes(platform, pattern(10));
    system.ceiling = 6;
    system.room = 8;
    system.signals = 1;
    let mut operation = send_file((), ());
    let mut outcomes = Vec::new();
    for _ in 0..6 {
        let reply = system.call(operation.request(platform));
        let class = send_file::errors::ErrorClass::Other;
        let class = match reply.errno {
            libc::EAGAIN => send_file::errors::ErrorClass::WouldBlock,
            libc::EINTR => send_file::errors::ErrorClass::Interrupted,
            _ => class,
        };
        let outcome = operation.raw_send_file(platform, reply, class);
        if outcome == Outcome::WouldBlock {
            system.room = 8;
        }
        outcomes.push((outcome, operation.decide(outcome)));
    }
    assert_eq!(
        outcomes,
        vec![
            (Outcome::Interrupted, Step::Again),
            (Outcome::Advanced(6), Step::Again),
            (Outcome::Advanced(2), Step::Again),
            (Outcome::WouldBlock, Step::Pending),
            (Outcome::Advanced(2), Step::Again),
            (Outcome::Advanced(0), Step::Ready(Ok(10))),
        ]
    );
}
