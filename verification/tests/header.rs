use source_chain::chain::SourceChain;
use source_chain::entry::Entry;
use source_chain::header::Header;
use source_chain::memory::MemChain;

#[test]
/// tests for Header::new()
fn new() {
    let chain = MemChain::new();
    let t = "type";
    let e = Entry::new(t, "foo");
    let h = Header::new(&chain, &e);

    assert_eq!(h.entry(), e.hash());
    assert_eq!(h.next(), None);
    assert_ne!(h.hash(), 0);
    assert!(h.validate());
}

#[test]
/// tests for header.entry_type()
fn entry_type() {
    let chain = MemChain::new();
    let t = "foo";
    let e = Entry::new(t, "");
    let h = Header::new(&chain, &e);

    assert_eq!(h.entry_type(), "foo");
}

#[test]
/// tests for header.time()
fn time() {
    let chain = MemChain::new();
    let t = "foo";
    let e = Entry::new(t, "");
    let h = Header::new(&chain, &e);

    assert_eq!(h.time(), "");
}

#[test]
/// tests for header.next()
fn next() {
    let mut chain = MemChain::new();
    let t = "foo";

    // first header is genesis so next should be None
    let e1 = Entry::new(t, "");
    let p1 = chain.push(&e1);
    let h1 = p1.header();

    assert_eq!(h1.next(), None);

    // second header next should be first header hash
    let e2 = Entry::new(t, "foo");
    let p2 = chain.push(&e2);
    let h2 = p2.header();

    assert_eq!(h2.next(), Some(h1.hash()));
}

#[test]
/// tests for header.entry()
fn entry() {
    let chain = MemChain::new();
    let t = "foo";

    // header for an entry should contain the entry hash under entry()
    let e = Entry::new(t, "");
    let h = Header::new(&chain, &e);

    assert_eq!(h.entry(), e.hash());
}

#[test]
/// tests for header.type_next()
fn type_next() {
    let mut chain = MemChain::new();
    let t1 = "foo";
    let t2 = "bar";

    // first header is genesis so next should be None
    let e1 = Entry::new(t1, "");
    let p1 = chain.push(&e1);
    let h1 = p1.header();

    assert_eq!(h1.type_next(), None);

    // second header is a different type so next should be None
    let e2 = Entry::new(t2, "");
    let p2 = chain.push(&e2);
    let h2 = p2.header();

    assert_eq!(h2.type_next(), None);

    // third header is same type as first header so next should be first header hash
    let e3 = Entry::new(t1, "");
    let p3 = chain.push(&e3);
    let h3 = p3.header();

    assert_eq!(h3.type_next(), Some(h1.hash()));
}

#[test]
/// tests for header.signature()
fn signature() {
    let chain = MemChain::new();
    let t = "foo";

    let e = Entry::new(t, "");
    let h = Header::new(&chain, &e);

    assert_eq!("", h.signature());
}

#[test]
/// test header.hash() against a known value
fn hash_known() {
    let chain = MemChain::new();
    let t = "foo";

    // check a known hash
    let e = Entry::new(t, "");
    let h = Header::new(&chain, &e);

    assert_eq!(17635930541451531134, h.hash());
}

#[test]
/// test that different entry content returns different hashes
fn hash_entry_content() {
    let chain = MemChain::new();
    let t = "fooType";

    // different entries must return different hashes
    let e1 = Entry::new(t, "");
    let h1 = Header::new(&chain, &e1);

    let e2 = Entry::new(t, "a");
    let h2 = Header::new(&chain, &e2);

    assert_ne!(h1.hash(), h2.hash());

    // same entry must return same hash
    let e3 = Entry::new(t, "");
    let h3 = Header::new(&chain, &e3);

    assert_eq!(h1.hash(), h3.hash());
}

#[test]
/// test that different entry types returns different hashes
fn hash_entry_type() {
    let chain = MemChain::new();
    let t1 = "foo";
    let t2 = "bar";
    let c = "baz";

    let e1 = Entry::new(t1, c);
    let e2 = Entry::new(t2, c);

    let h1 = Header::new(&chain, &e1);
    let h2 = Header::new(&chain, &e2);

    // different types must give different hashes
    assert_ne!(h1.hash(), h2.hash());
}

#[test]
/// test that different chain state returns different hashes
fn hash_chain_state() {
    // different chain, different hash
    let mut chain = MemChain::new();
    let t = "foo";
    let c = "bar";
    let e = Entry::new(t, c);
    let h = Header::new(&chain, &e);

    let p1 = chain.push(&e);
    // p2 will have a different hash to p1 with the same entry as the chain state is different
    let p2 = chain.push(&e);

    assert_eq!(h.hash(), p1.header().hash());
    assert_ne!(h.hash(), p2.header().hash());
}

#[test]
/// test that the type_next link enters the header hash
fn hash_type_next() {
    // Fully isolating type_next is impossible along the public construction
    // path: the chain state that decides type_next also decides next. This
    // comes as close as that allows: two chains of one record each, the
    // records differing only in entry type, and a header for one same entry
    // built against each. Both headers carry a present next link; only one
    // carries a type_next link; their hashes differ.
    let t1 = "foo";
    let t2 = "bar";
    let e = Entry::new(t2, "x");

    let mut chain_other_type = MemChain::new();
    chain_other_type.push(&Entry::new(t1, ""));
    let h_after_other_type = Header::new(&chain_other_type, &e);

    let mut chain_same_type = MemChain::new();
    chain_same_type.push(&Entry::new(t2, ""));
    let h_after_same_type = Header::new(&chain_same_type, &e);

    assert!(h_after_other_type.next().is_some());
    assert!(h_after_same_type.next().is_some());
    assert_eq!(h_after_other_type.type_next(), None);
    assert!(h_after_same_type.type_next().is_some());

    assert_ne!(h_after_other_type.hash(), h_after_same_type.hash());
}

#[test]
/// tests for header.validate()
fn validate() {
    let chain = MemChain::new();
    let t = "foo";

    let e = Entry::new(t, "");
    let h = Header::new(&chain, &e);

    assert!(h.validate());
}
