use redis_ac::commands::ScanFactory;
use redis_ac::stream::{CollectStep, RedisScanStream, ScanStep};

/// A stand-in connection handle: not `Copy`, so the type system enforces
/// the same linear threading the real handle has.
#[derive(Debug, PartialEq)]
struct Token(u32);

fn page(items: &[&str]) -> Vec<String> {
    items.iter().map(|s| s.to_string()).collect()
}

/// The concrete scenario: a keyscan factory answered with pages
/// `(cursor=5, ["a","b"])` then `(cursor=0, ["c"])` collects to
/// `["a","b","c"]`, and the connection comes back exactly once, after "c".
#[test]
fn collect_two_pages() {
    let (machine, con, cmd) = RedisScanStream::<Token, String>::new(Token(7), ScanFactory::scan());
    assert_eq!(cmd.parts, vec![b"SCAN".to_vec(), b"0".to_vec()]);
    let mut all = machine.all();

    // First page: cursor 5, items a, b. The next request must go out at once.
    let reissue = all.on_page(con, 5, page(&["a", "b"]));
    let (con, cmd) = reissue.expect("nonzero cursor must re-issue");
    assert_eq!(con, Token(7));
    assert_eq!(cmd.parts, vec![b"SCAN".to_vec(), b"5".to_vec()]);

    // The two queued items can be drained while the request is in flight.
    match all.step() {
        CollectStep::Pending => {}
        _ => panic!("a page request is still in flight"),
    }

    // Final page: cursor 0, item c.
    let reissue = all.on_page(con, 0, page(&["c"]));
    assert!(reissue.is_none());

    match all.step() {
        CollectStep::Ready(con, items) => {
            assert_eq!(con, Token(7));
            assert_eq!(items, page(&["a", "b", "c"]));
        }
        _ => panic!("collection must complete after the cursor-0 page"),
    }
}

/// An empty scan: the very first page already has cursor 0 and no items.
/// The collector completes with an empty result and the connection back.
#[test]
fn collect_empty_scan() {
    let (machine, con, _) = RedisScanStream::<Token, String>::new(Token(1), ScanFactory::scan());
    let mut all = machine.all();
    assert!(all.on_page(con, 0, page(&[])).is_none());
    match all.step() {
        CollectStep::Ready(con, items) => {
            assert_eq!(con, Token(1));
            assert!(items.is_empty());
        }
        _ => panic!("an empty scan must still complete"),
    }
}

/// Exhaustiveness: items split across many pages, duplicates included, all
/// arrive exactly once per occurrence, in arrival order.
#[test]
fn collect_many_pages_keeps_duplicates() {
    let (machine, con, _) =
        RedisScanStream::<Token, String>::new(Token(3), ScanFactory::scan_match(b"k*".to_vec()));
    let mut all = machine.all();
    let (con, _) = all.on_page(con, 17, page(&["z", "a"])).unwrap();
    let (con, _) = all.on_page(con, 23, page(&[])).unwrap();
    let (con, _) = all.on_page(con, 9, page(&["m", "a"])).unwrap();
    assert!(all.on_page(con, 0, page(&["z"])).is_none());
    match all.step() {
        CollectStep::Ready(con, items) => {
            assert_eq!(con, Token(3));
            assert_eq!(items, page(&["z", "a", "m", "a", "z"]));
        }
        _ => panic!("collection must complete"),
    }
}

/// Direct iteration: the emission order is the pages' concatenation, the
/// last item carries the connection, and afterwards the stream answers
/// `Done` forever.
#[test]
fn stream_step_by_step() {
    let (mut machine, con, _) =
        RedisScanStream::<Token, u64>::new(Token(9), ScanFactory::scan());

    match machine.next() {
        ScanStep::Pending => {}
        _ => panic!("the first page is still in flight"),
    }

    let (con, _) = machine.on_page(con, 4, vec![10, 11]).unwrap();

    match machine.next() {
        ScanStep::Item(v) => assert_eq!(v, 10),
        _ => panic!("an item is queued"),
    }
    match machine.next() {
        ScanStep::Item(v) => assert_eq!(v, 11),
        _ => panic!("an item is queued; the connection is still in flight"),
    }
    assert!(machine.on_page(con, 0, vec![12]).is_none());
    match machine.next() {
        ScanStep::LastItem(con, v) => {
            assert_eq!(v, 12);
            assert_eq!(con, Token(9));
        }
        _ => panic!("the last item must carry the connection"),
    }
    match machine.next() {
        ScanStep::Done => {}
        _ => panic!("the stream is exhausted and the connection returned"),
    }
    match machine.next() {
        ScanStep::Done => {}
        _ => panic!("the stream must stay exhausted"),
    }
}

/// A final page with cursor 0 and no items, after earlier items: the
/// terminal "no item" signal still carries the connection, exactly once.
#[test]
fn trailing_empty_page_signals_finish() {
    let (mut machine, con, _) =
        RedisScanStream::<Token, u64>::new(Token(5), ScanFactory::scan());
    let (con, _) = machine.on_page(con, 6, vec![1]).unwrap();
    match machine.next() {
        ScanStep::Item(v) => assert_eq!(v, 1),
        _ => panic!("an item is queued; the connection is still in flight"),
    }
    assert!(machine.on_page(con, 0, vec![]).is_none());
    match machine.next() {
        ScanStep::Finished(con) => assert_eq!(con, Token(5)),
        _ => panic!("the terminal signal must carry the connection"),
    }
    match machine.next() {
        ScanStep::Done => {}
        _ => panic!("the stream must stay exhausted"),
    }
}
