use s4::content::{retrieved, ContentCursor, ContentPull, GetObjectRequest};
use s4::listing::{ListingCursor, ListingPage, ObjectEntry, PageRequest, Pull};
use s4::error::Violation;
use s4::listing_model::CursorState;

/// A bucket held in memory, listed a thousand keys to the page.
struct Bucket {
    name: String,
    objects: Vec<(String, Vec<u8>)>,
    page_size: usize,
    list_calls: usize,
    get_calls: Vec<String>,
}

fn create_test_bucket() -> Bucket {
    Bucket {
        name: String::from("test-bucket"),
        objects: Vec::new(),
        page_size: 1000,
        list_calls: 0,
        get_calls: Vec::new(),
    }
}

fn put_object(bucket: &mut Bucket, key: &str, body: Vec<u8>) {
    let place = bucket.objects.partition_point(|(other, _)| other.as_str() < key);
    if place < bucket.objects.len() && bucket.objects[place].0 == key {
        bucket.objects[place].1 = body;
    } else {
        bucket.objects.insert(place, (key.to_string(), body));
    }
}

fn list_page(bucket: &mut Bucket, request: PageRequest) -> ListingPage {
    assert_eq!(request.bucket, bucket.name);
    bucket.list_calls += 1;
    let mut entries = Vec::new();
    let mut more = false;
    for (key, body) in bucket.objects.iter() {
        if let Some(prefix) = &request.prefix {
            if !key.starts_with(prefix.as_str()) {
                continue;
            }
        }
        if let Some(token) = &request.continuation_token {
            if key.as_str() <= token.as_str() {
                continue;
            }
        }
        if entries.len() == bucket.page_size {
            more = true;
            break;
        }
        entries.push(ObjectEntry {
            key: key.clone(),
            size: Some(body.len() as i64),
            last_modified: None,
            e_tag: None,
        });
    }
    let next_token = if more { entries.last().map(|entry| entry.key.clone()) } else { None };
    ListingPage { entries, next_token }
}

fn get_object(bucket: &mut Bucket, request: &GetObjectRequest) -> Vec<u8> {
    assert_eq!(request.bucket, bucket.name);
    bucket.get_calls.push(request.key.clone());
    let place = bucket
        .objects
        .iter()
        .position(|(key, _)| *key == request.key)
        .unwrap();
    bucket.objects[place].1.clone()
}

struct ObjectIter<'a> {
    bucket: &'a mut Bucket,
    cursor: ListingCursor,
}

fn iter_objects_of(bucket: &mut Bucket) -> ObjectIter<'_> {
    let cursor = ListingCursor::new(bucket.name.clone());
    ObjectIter { bucket, cursor }
}

fn iter_objects_with_prefix_of<'a>(bucket: &'a mut Bucket, prefix: &str) -> ObjectIter<'a> {
    let cursor = ListingCursor::with_prefix(bucket.name.clone(), prefix.to_string());
    ObjectIter { bucket, cursor }
}

impl<'a> ObjectIter<'a> {
    fn next(&mut self) -> Result<Option<ObjectEntry>, String> {
        loop {
            match self.cursor.next() {
                Pull::Ready(entry) => return Ok(entry),
                Pull::Fetch { request, .. } => {
                    let page = list_page(self.bucket, request);
                    assert!(self.cursor.accept(page));
                }
            }
        }
    }

    fn nth(&mut self, n: usize) -> Result<Option<ObjectEntry>, String> {
        let mut n = n;
        loop {
            match self.cursor.nth(n) {
                Pull::Ready(entry) => return Ok(entry),
                Pull::Fetch { request, resume } => {
                    let page = list_page(self.bucket, request);
                    assert!(self.cursor.accept(page));
                    n = resume;
                }
            }
        }
    }

    fn count(mut self) -> Result<usize, String> {
        let mut counted = 0;
        loop {
            match self.cursor.count(counted) {
                Pull::Ready(total) => return Ok(total),
                Pull::Fetch { request, resume } => {
                    let page = list_page(self.bucket, request);
                    assert!(self.cursor.accept(page));
                    counted = resume;
                }
            }
        }
    }

    fn last(mut self) -> Result<Option<ObjectEntry>, String> {
        let mut candidate = None;
        loop {
            match self.cursor.last(candidate) {
                Pull::Ready(entry) => return Ok(entry),
                Pull::Fetch { request, resume } => {
                    let page = list_page(self.bucket, request);
                    assert!(self.cursor.accept(page));
                    candidate = resume;
                }
            }
        }
    }
}

struct GetObjectIter<'a> {
    bucket: &'a mut Bucket,
    cursor: ContentCursor,
}

fn iter_get_objects_of(bucket: &mut Bucket) -> GetObjectIter<'_> {
    let cursor = ContentCursor::new(bucket.name.clone());
    GetObjectIter { bucket, cursor }
}

fn iter_get_objects_with_prefix_of<'a>(bucket: &'a mut Bucket, prefix: &str) -> GetObjectIter<'a> {
    let cursor = ContentCursor::with_prefix(bucket.name.clone(), prefix.to_string());
    GetObjectIter { bucket, cursor }
}

impl<'a> GetObjectIter<'a> {
    fn next(&mut self) -> Result<Option<(String, Vec<u8>)>, String> {
        loop {
            match self.cursor.next() {
                ContentPull::Retrieve(request) => {
                    let body = get_object(self.bucket, &request);
                    return Ok(Some(retrieved(request, body)));
                }
                ContentPull::Finished => return Ok(None),
                ContentPull::Fetch { request, .. } => {
                    let page = list_page(self.bucket, request);
                    assert!(self.cursor.accept(page));
                }
            }
        }
    }

    fn nth(&mut self, n: usize) -> Result<Option<(String, Vec<u8>)>, String> {
        let mut n = n;
        loop {
            match self.cursor.nth(n) {
                ContentPull::Retrieve(request) => {
                    let body = get_object(self.bucket, &request);
                    return Ok(Some(retrieved(request, body)));
                }
                ContentPull::Finished => return Ok(None),
                ContentPull::Fetch { request, resume } => {
                    let page = list_page(self.bucket, request);
                    assert!(self.cursor.accept(page));
                    n = resume;
                }
            }
        }
    }

    fn count(mut self) -> Result<usize, String> {
        let mut counted = 0;
        loop {
            match self.cursor.count(counted) {
                Pull::Ready(total) => return Ok(total),
                Pull::Fetch { request, resume } => {
                    let page = list_page(self.bucket, request);
                    assert!(self.cursor.accept(page));
                    counted = resume;
                }
            }
        }
    }

    fn last(mut self) -> Result<Option<(String, Vec<u8>)>, String> {
        let mut candidate = None;
        loop {
            match self.cursor.last(candidate) {
                ContentPull::Retrieve(request) => {
                    let body = get_object(self.bucket, &request);
                    return Ok(Some(retrieved(request, body)));
                }
                ContentPull::Finished => return Ok(None),
                ContentPull::Fetch { request, resume } => {
                    let page = list_page(self.bucket, request);
                    assert!(self.cursor.accept(page));
                    candidate = resume;
                }
            }
        }
    }
}

fn assert_key_and_body(output: Result<Option<(String, Vec<u8>)>, String>, expected: &str) {
    let (key, body) = output.unwrap().unwrap();
    assert_eq!(key, expected);
    assert_eq!(body, expected.as_bytes());
}

#[test]
fn iter_objects() {
    let mut bucket = create_test_bucket();

    for i in (0..2003).map(|i| format!("{:04}", i)) {
        put_object(&mut bucket, &i, vec![]);
    }

    let mut iter = iter_objects_of(&mut bucket);
    for i in (0..2003).map(|i| format!("{:04}", i)) {
        let object = iter.next().unwrap().unwrap();
        assert_eq!(object.key, i);
    }
    assert!(iter.next().unwrap().is_none());
}

#[test]
fn iter_objects_with_prefix() {
    let mut bucket = create_test_bucket();

    for i in (0..1005).map(|i| format!("a/{:04}", i)) {
        put_object(&mut bucket, &i, vec![]);
    }
    put_object(&mut bucket, "b/1234", vec![]);

    let mut iter = iter_objects_with_prefix_of(&mut bucket, "a/");
    for i in (0..1005).map(|i| format!("a/{:04}", i)) {
        let object = iter.next().unwrap().unwrap();
        assert_eq!(object.key, i);
    }
    assert!(iter.next().unwrap().is_none());
}

#[test]
fn iter_objects_nth() {
    let mut bucket = create_test_bucket();

    for i in (1..2081).map(|i| format!("{:04}", i)) {
        put_object(&mut bucket, &i, vec![]);
    }

    let mut iter = iter_objects_of(&mut bucket);
    let obj = iter.nth(0).unwrap().unwrap();
    assert_eq!(obj.key, "0001");
    let obj = iter.nth(2).unwrap().unwrap();
    assert_eq!(obj.key, "0004");
    let obj = iter.nth(1999).unwrap().unwrap();
    assert_eq!(obj.key, "2004");
    let obj = iter.nth(75).unwrap().unwrap();
    assert_eq!(obj.key, "2080");
    assert!(iter.nth(0).unwrap().is_none());
    assert!(iter.nth(3).unwrap().is_none());

    let mut iter = iter_objects_of(&mut bucket);
    let obj = iter.nth(1000).unwrap().unwrap();
    assert_eq!(obj.key, "1001");
    let obj = iter.nth(997).unwrap().unwrap();
    assert_eq!(obj.key, "1999");
    let obj = iter.nth(0).unwrap().unwrap();
    assert_eq!(obj.key, "2000");
    let obj = iter.nth(0).unwrap().unwrap();
    assert_eq!(obj.key, "2001");

    let mut iter = iter_objects_of(&mut bucket);
    let obj = iter.nth(2030).unwrap().unwrap();
    assert_eq!(obj.key, "2031");
}

#[test]
fn iter_objects_count() {
    let mut bucket = create_test_bucket();

    assert_eq!(iter_objects_of(&mut bucket).count().unwrap(), 0);

    for i in (0..2122).map(|i| format!("{:04}", i)) {
        put_object(&mut bucket, &i, vec![]);
    }

    assert_eq!(iter_objects_of(&mut bucket).count().unwrap(), 2122);

    let mut iter = iter_objects_of(&mut bucket);
    iter.nth(1199).unwrap().unwrap();
    assert_eq!(iter.count().unwrap(), 922);

    let mut iter = iter_objects_of(&mut bucket);
    iter.nth(2120).unwrap().unwrap();
    assert_eq!(iter.count().unwrap(), 1);

    let mut iter = iter_objects_of(&mut bucket);
    iter.nth(2121).unwrap().unwrap();
    assert_eq!(iter.count().unwrap(), 0);

    let mut iter = iter_objects_of(&mut bucket);
    assert!(iter.nth(2122).unwrap().is_none());
    assert_eq!(iter.count().unwrap(), 0);
}

#[test]
fn iter_objects_last() {
    let mut bucket = create_test_bucket();

    assert!(iter_objects_of(&mut bucket).last().unwrap().is_none());

    for i in (1..1000).map(|i| format!("{:04}", i)) {
        put_object(&mut bucket, &i, vec![]);
    }

    assert_eq!(iter_objects_of(&mut bucket).last().unwrap().unwrap().key, "0999");
    put_object(&mut bucket, "1000", vec![]);
    assert_eq!(iter_objects_of(&mut bucket).last().unwrap().unwrap().key, "1000");
    put_object(&mut bucket, "1001", vec![]);
    assert_eq!(iter_objects_of(&mut bucket).last().unwrap().unwrap().key, "1001");
}

#[test]
fn iter_get_objects() {
    let mut bucket = create_test_bucket();

    for i in (1..1004).map(|i| format!("{:04}", i)) {
        put_object(&mut bucket, &i, i.clone().into_bytes());
    }

    let mut iter = iter_get_objects_of(&mut bucket);
    for i in (1..1004).map(|i| format!("{:04}", i)) {
        let (key, body) = iter.next().unwrap().unwrap();
        assert_eq!(key, i);
        assert_eq!(body, i.as_bytes());
    }
    assert!(iter.next().unwrap().is_none());
}

#[test]
fn iter_get_objects_nth() {
    let mut bucket = create_test_bucket();

    for i in (1..1003).map(|i| format!("{:04}", i)) {
        put_object(&mut bucket, &i, i.clone().into_bytes());
    }

    let mut iter = iter_get_objects_of(&mut bucket);
    assert_key_and_body(iter.nth(0), "0001");
    assert_key_and_body(iter.nth(997), "0999");
    assert_key_and_body(iter.nth(0), "1000");
    assert_key_and_body(iter.nth(0), "1001");
    assert_key_and_body(iter.nth(0), "1002");
    assert!(iter.nth(0).unwrap().is_none());
}

#[test]
fn iter_get_objects_with_prefix_count() {
    let mut bucket = create_test_bucket();

    put_object(&mut bucket, "a/0020", vec![]);
    put_object(&mut bucket, "c/0030", vec![]);
    assert_eq!(
        iter_get_objects_with_prefix_of(&mut bucket, "b/")
            .count()
            .unwrap(),
        0
    );

    for i in (0..533).map(|i| format!("b/{:04}", i)) {
        put_object(&mut bucket, &i, i.clone().into_bytes());
    }

    assert_eq!(
        iter_get_objects_with_prefix_of(&mut bucket, "b/")
            .count()
            .unwrap(),
        533
    );
}

#[test]
fn iter_get_objects_last() {
    let mut bucket = create_test_bucket();

    assert!(iter_get_objects_of(&mut bucket).last().unwrap().is_none());

    for i in (1..1002).map(|i| format!("{:04}", i)) {
        put_object(&mut bucket, &i, i.clone().into_bytes());
    }

    assert_key_and_body(iter_get_objects_of(&mut bucket).last(), "1001");
}

#[test]
fn drained_cursor_stays_exhausted() {
    let mut bucket = create_test_bucket();
    for i in (0..7).map(|i| format!("{:04}", i)) {
        put_object(&mut bucket, &i, vec![]);
    }
    bucket.page_size = 3;

    let mut iter = iter_objects_of(&mut bucket);
    assert_eq!(iter.cursor.state(), CursorState::Empty);
    let mut keys = Vec::new();
    while let Some(entry) = iter.next().unwrap() {
        keys.push(entry.key);
    }
    assert_eq!(keys, vec!["0000", "0001", "0002", "0003", "0004", "0005", "0006"]);
    assert_eq!(iter.cursor.state(), CursorState::Exhausted);
    assert!(iter.next().unwrap().is_none());
    assert!(iter.next().unwrap().is_none());
    assert_eq!(iter.cursor.state(), CursorState::Exhausted);
    assert_eq!(iter.bucket.list_calls, 3);
}

#[test]
fn nth_equals_repeated_next() {
    for total in 0..12usize {
        for skip in 0..14usize {
            let mut bucket = create_test_bucket();
            for i in (0..total).map(|i| format!("{:04}", i)) {
                put_object(&mut bucket, &i, vec![]);
            }
            bucket.page_size = 4;

            let (by_nth, state_after_nth, calls_by_nth) = {
                let mut iter = iter_objects_of(&mut bucket);
                let entry = iter.nth(skip).unwrap();
                let state = iter.cursor.state();
                let calls = iter.bucket.list_calls;
                (entry, state, calls)
            };
            bucket.list_calls = 0;
            let (by_next, state_after_next, calls_by_next) = {
                let mut iter = iter_objects_of(&mut bucket);
                let mut entry = None;
                for _ in 0..=skip {
                    entry = iter.next().unwrap();
                }
                let state = iter.cursor.state();
                let calls = iter.bucket.list_calls;
                (entry, state, calls)
            };
            assert_eq!(by_nth, by_next);
            assert_eq!(state_after_nth, state_after_next);
            assert_eq!(calls_by_nth, calls_by_next);
            if skip < total {
                assert_eq!(by_nth.unwrap().key, format!("{:04}", skip));
            } else {
                assert!(by_nth.is_none());
                assert_eq!(state_after_nth, CursorState::Exhausted);
            }
        }
    }
}

#[test]
fn nth_fetches_no_page_beyond_the_one_it_needs() {
    let mut bucket = create_test_bucket();
    for i in (0..50).map(|i| format!("{:04}", i)) {
        put_object(&mut bucket, &i, vec![]);
    }
    bucket.page_size = 10;

    let mut iter = iter_objects_of(&mut bucket);
    assert_eq!(iter.nth(25).unwrap().unwrap().key, "0025");
    assert_eq!(iter.bucket.list_calls, 3);
    assert_eq!(iter.cursor.buffered(), 4);
    assert_eq!(iter.nth(3).unwrap().unwrap().key, "0029");
    assert_eq!(iter.bucket.list_calls, 3);
    assert_eq!(iter.next().unwrap().unwrap().key, "0030");
    assert_eq!(iter.bucket.list_calls, 4);
}

#[test]
fn count_after_consuming_some() {
    for taken in 0..9usize {
        let mut bucket = create_test_bucket();
        for i in (0..7).map(|i| format!("{:04}", i)) {
            put_object(&mut bucket, &i, vec![]);
        }
        bucket.page_size = 3;
        let mut iter = iter_objects_of(&mut bucket);
        for _ in 0..taken {
            iter.next().unwrap();
        }
        let expected = if taken <= 7 { 7 - taken } else { 0 };
        assert_eq!(iter.count().unwrap(), expected);
    }
}

#[test]
fn last_matches_final_next() {
    for total in 1..9usize {
        let mut bucket = create_test_bucket();
        for i in (0..total).map(|i| format!("{:04}", i)) {
            put_object(&mut bucket, &i, vec![]);
        }
        bucket.page_size = 3;
        let last = iter_objects_of(&mut bucket).last().unwrap().unwrap();
        let mut iter = iter_objects_of(&mut bucket);
        let mut final_next = None;
        while let Some(entry) = iter.next().unwrap() {
            final_next = Some(entry);
        }
        assert_eq!(Some(last), final_next);
    }
}

#[test]
fn interleaved_operations_share_one_position() {
    let mut bucket = create_test_bucket();
    for i in (0..20).map(|i| format!("{:04}", i)) {
        put_object(&mut bucket, &i, vec![]);
    }
    bucket.page_size = 6;

    let mut iter = iter_objects_of(&mut bucket);
    assert_eq!(iter.next().unwrap().unwrap().key, "0000");
    assert_eq!(iter.nth(4).unwrap().unwrap().key, "0005");
    assert_eq!(iter.next().unwrap().unwrap().key, "0006");
    assert_eq!(iter.nth(6).unwrap().unwrap().key, "0013");
    assert_eq!(iter.last().unwrap().unwrap().key, "0019");

    let mut iter = iter_objects_of(&mut bucket);
    assert_eq!(iter.nth(16).unwrap().unwrap().key, "0016");
    assert_eq!(iter.count().unwrap(), 3);
}

#[test]
fn empty_pages_in_the_middle_are_passed_over() {
    let mut cursor = ListingCursor::new(String::from("b"));
    let entry = |key: &str| ObjectEntry {
        key: key.to_string(),
        size: None,
        last_modified: None,
        e_tag: None,
    };
    let request = match cursor.next() {
        Pull::Fetch { request, .. } => request,
        other => panic!("unexpected {:?}", other),
    };
    assert_eq!(
        request,
        PageRequest { bucket: String::from("b"), prefix: None, continuation_token: None }
    );
    assert!(cursor.accept(ListingPage { entries: vec![], next_token: Some(String::from("t1")) }));
    let request = match cursor.next() {
        Pull::Fetch { request, .. } => request,
        other => panic!("unexpected {:?}", other),
    };
    assert_eq!(request.continuation_token, Some(String::from("t1")));
    assert!(cursor.accept(ListingPage {
        entries: vec![entry("x"), entry("y")],
        next_token: Some(String::from("t2")),
    }));
    assert_eq!(cursor.next(), Pull::Ready(Some(entry("x"))));
    assert_eq!(cursor.state(), CursorState::Buffered);
    assert_eq!(cursor.next(), Pull::Ready(Some(entry("y"))));
    assert_eq!(cursor.state(), CursorState::Empty);
    let request = match cursor.next() {
        Pull::Fetch { request, .. } => request,
        other => panic!("unexpected {:?}", other),
    };
    assert_eq!(request.continuation_token, Some(String::from("t2")));
    assert!(cursor.accept(ListingPage { entries: vec![], next_token: None }));
    assert_eq!(cursor.next(), Pull::Ready(None));
    assert_eq!(cursor.state(), CursorState::Exhausted);
}

#[test]
fn page_that_was_not_asked_for_is_dropped() {
    let entry = |key: &str| ObjectEntry {
        key: key.to_string(),
        size: Some(3),
        last_modified: Some(String::from("yesterday")),
        e_tag: Some(String::from("tag")),
    };
    let mut cursor = ListingCursor::new(String::from("b"));
    assert!(cursor.accept(ListingPage { entries: vec![entry("a"), entry("b")], next_token: None }));
    assert!(!cursor.accept(ListingPage { entries: vec![entry("z")], next_token: None }));
    assert_eq!(cursor.buffered(), 2);
    assert_eq!(cursor.next(), Pull::Ready(Some(entry("a"))));
    assert_eq!(cursor.next(), Pull::Ready(Some(entry("b"))));
    assert_eq!(cursor.next(), Pull::Ready(None));
    assert!(!cursor.accept(ListingPage { entries: vec![entry("z")], next_token: None }));
    assert_eq!(cursor.next(), Pull::Ready(None));
}

#[test]
fn prefix_is_passed_to_every_page_request() {
    let mut cursor = ListingCursor::with_prefix(String::from("b"), String::from("logs/"));
    assert_eq!(cursor.bucket(), "b");
    for token in [None, Some(String::from("t1")), Some(String::from("t2"))] {
        let request = match cursor.count(0) {
            Pull::Fetch { request, .. } => request,
            other => panic!("unexpected {:?}", other),
        };
        assert_eq!(
            request,
            PageRequest {
                bucket: String::from("b"),
                prefix: Some(String::from("logs/")),
                continuation_token: token.clone(),
            }
        );
        let following = match token {
            None => "t1",
            Some(ref last) if last == "t1" => "t2",
            _ => "t3",
        };
        assert!(cursor
            .accept(ListingPage { entries: vec![], next_token: Some(following.to_string()) }));
    }
}

#[test]
fn steps_hand_back_what_to_resume_with() {
    let entry = |key: &str| ObjectEntry {
        key: key.to_string(),
        size: None,
        last_modified: None,
        e_tag: None,
    };
    let page = || ListingPage {
        entries: vec![entry("a"), entry("b"), entry("c")],
        next_token: Some(String::from("t")),
    };
    let request = || PageRequest {
        bucket: String::from("b"),
        prefix: None,
        continuation_token: Some(String::from("t")),
    };

    let mut cursor = ListingCursor::new(String::from("b"));
    cursor.accept(page());
    assert_eq!(cursor.nth(7), Pull::Fetch { request: request(), resume: 4 });
    assert_eq!(cursor.buffered(), 0);

    let mut cursor = ListingCursor::new(String::from("b"));
    cursor.accept(page());
    assert_eq!(cursor.nth(3), Pull::Fetch { request: request(), resume: 0 });

    let mut cursor = ListingCursor::new(String::from("b"));
    cursor.accept(page());
    assert_eq!(cursor.nth(2), Pull::Ready(Some(entry("c"))));
    assert_eq!(cursor.state(), CursorState::Empty);

    let mut cursor = ListingCursor::new(String::from("b"));
    cursor.accept(page());
    assert_eq!(cursor.next(), Pull::Ready(Some(entry("a"))));
    assert_eq!(cursor.count(10), Pull::Fetch { request: request(), resume: 12 });
    assert_eq!(cursor.count(12), Pull::Fetch { request: request(), resume: 12 });

    let mut cursor = ListingCursor::new(String::from("b"));
    cursor.accept(page());
    assert_eq!(cursor.last(None), Pull::Fetch { request: request(), resume: Some(entry("c")) });
    assert_eq!(
        cursor.last(Some(entry("c"))),
        Pull::Fetch { request: request(), resume: Some(entry("c")) }
    );
    cursor.accept(ListingPage { entries: vec![], next_token: None });
    assert_eq!(cursor.last(Some(entry("c"))), Pull::Ready(Some(entry("c"))));
    assert_eq!(cursor.last(None), Pull::Ready(None));
}

#[test]
fn entry_duplicate_is_equal() {
    let entry = ObjectEntry {
        key: String::from("k"),
        size: Some(12),
        last_modified: Some(String::from("2020-01-01T00:00:00.000Z")),
        e_tag: Some(String::from("\"abc\"")),
    };
    assert_eq!(entry.duplicate(), entry);
}

#[test]
fn content_count_issues_no_get() {
    let mut bucket = create_test_bucket();
    for i in (0..37).map(|i| format!("{:04}", i)) {
        put_object(&mut bucket, &i, i.clone().into_bytes());
    }
    bucket.page_size = 10;
    let iter = iter_get_objects_of(&mut bucket);
    assert_eq!(iter.count().unwrap(), 37);
    assert!(bucket.get_calls.is_empty());
    assert_eq!(bucket.list_calls, 4);
}

#[test]
fn content_drain_issues_one_get_per_key() {
    let mut bucket = create_test_bucket();
    for i in (0..37).map(|i| format!("{:04}", i)) {
        put_object(&mut bucket, &i, i.clone().into_bytes());
    }
    bucket.page_size = 10;
    let mut iter = iter_get_objects_of(&mut bucket);
    let mut yielded = Vec::new();
    loop {
        let before = iter.bucket.get_calls.len();
        match iter.next().unwrap() {
            Some((key, body)) => {
                assert_eq!(iter.bucket.get_calls.len(), before + 1);
                assert_eq!(iter.bucket.get_calls.last(), Some(&key));
                assert_eq!(body, key.as_bytes());
                yielded.push(key);
            }
            None => {
                assert_eq!(iter.bucket.get_calls.len(), before);
                break;
            }
        }
    }
    assert_eq!(yielded.len(), 37);
    assert_eq!(bucket.get_calls, yielded);
}

#[test]
fn content_nth_and_last_get_only_what_they_yield() {
    let mut bucket = create_test_bucket();
    for i in (0..37).map(|i| format!("{:04}", i)) {
        put_object(&mut bucket, &i, i.clone().into_bytes());
    }
    bucket.page_size = 10;
    let mut iter = iter_get_objects_of(&mut bucket);
    assert_key_and_body(iter.nth(24), "0024");
    assert_eq!(iter.cursor.buffered(), 5);
    assert_key_and_body(iter.last(), "0036");
    assert_eq!(bucket.get_calls, vec!["0024", "0036"]);

    bucket.get_calls.clear();
    let mut iter = iter_get_objects_of(&mut bucket);
    assert!(iter.nth(37).unwrap().is_none());
    assert!(iter.last().unwrap().is_none());
    assert!(bucket.get_calls.is_empty());
}

#[test]
fn content_request_names_bucket_and_key() {
    let mut cursor = ContentCursor::with_prefix(String::from("bkt"), String::from("p/"));
    match cursor.next() {
        ContentPull::Fetch { request, .. } => assert_eq!(
            request,
            PageRequest {
                bucket: String::from("bkt"),
                prefix: Some(String::from("p/")),
                continuation_token: None,
            }
        ),
        other => panic!("unexpected {:?}", other),
    }
    assert!(cursor.accept(ListingPage {
        entries: vec![ObjectEntry {
            key: String::from("p/one"),
            size: None,
            last_modified: None,
            e_tag: None,
        }],
        next_token: None,
    }));
    let request = match cursor.next() {
        ContentPull::Retrieve(request) => request,
        other => panic!("unexpected {:?}", other),
    };
    assert_eq!(
        request,
        GetObjectRequest { bucket: String::from("bkt"), key: String::from("p/one") }
    );
    assert_eq!(retrieved(request, 17u8), (String::from("p/one"), 17u8));
    assert_eq!(cursor.next(), ContentPull::Finished);
}

#[test]
fn listed_object_without_key_is_a_violation() {
    assert_eq!(
        ObjectEntry::listed(None, Some(4), None, Some(String::from("tag"))),
        Err(Violation::MissingKey)
    );
    assert_eq!(
        ObjectEntry::listed(
            Some(String::from("k")),
            Some(4),
            Some(String::from("then")),
            Some(String::from("tag"))
        ),
        Ok(ObjectEntry {
            key: String::from("k"),
            size: Some(4),
            last_modified: Some(String::from("then")),
            e_tag: Some(String::from("tag")),
        })
    );
    assert_eq!(Violation::MissingKey.message(), "Missing object key");
}
