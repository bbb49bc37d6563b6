use interprocess::credentials::{cmsgcred_packed, sockcred_packed, Credentials, CMGROUP_MAX};

fn cmsgcred(ngroups: i16, groups: [u32; 16]) -> cmsgcred_packed {
    cmsgcred_packed {
        cmcred_pid: 4242,
        cmcred_uid: 1000,
        cmcred_euid: 1001,
        cmcred_gid: 2000,
        cmcred_ngroups: ngroups,
        __pad0: 0,
        cmcred_groups: groups,
    }
}

fn sockcred(ngroups: i32, groups: Vec<u32>) -> sockcred_packed {
    sockcred_packed {
        sc_uid: 500,
        sc_euid: 501,
        sc_gid: 600,
        sc_egid: 601,
        sc_ngroups: ngroups,
        sc_groups: groups,
    }
}

fn numbered_slots() -> [u32; 16] {
    [10, 11, 12, 13, 14, 15, 16, 17, 18, 19, 20, 21, 22, 23, 24, 25]
}

#[test]
fn three_groups_come_out_in_order() {
    let mut slots = [0u32; 16];
    slots[0] = 100;
    slots[1] = 200;
    slots[2] = 300;
    let record = cmsgcred(3, slots);
    let mut groups = Credentials::Cmsgcred(&record).groups();
    assert_eq!(groups.len(), 3);
    assert_eq!(groups.next(), Some(100));
    assert_eq!(groups.len(), 2);
    assert_eq!(groups.next(), Some(200));
    assert_eq!(groups.len(), 1);
    assert_eq!(groups.next(), Some(300));
    assert_eq!(groups.len(), 0);
    assert_eq!(groups.next(), None);
    assert_eq!(groups.next(), None);
    assert_eq!(groups.len(), 0);
}

#[test]
fn oversized_count_is_clamped() {
    let record = cmsgcred(20, numbered_slots());
    let mut groups = Credentials::Cmsgcred(&record).groups();
    assert_eq!(groups.len(), CMGROUP_MAX);
    let mut seen = Vec::new();
    while let Some(gid) = groups.next() {
        seen.push(gid);
    }
    assert_eq!(seen, numbered_slots().to_vec());
    assert_eq!(groups.next(), None);
}

#[test]
fn largest_count_is_clamped() {
    let record = cmsgcred(i16::MAX, numbered_slots());
    let groups = Credentials::Cmsgcred(&record).groups();
    assert_eq!(groups.len(), 16);
}

#[test]
fn full_array_is_read_whole() {
    let record = cmsgcred(16, numbered_slots());
    let mut groups = Credentials::Cmsgcred(&record).groups();
    assert_eq!(groups.len(), 16);
    for expected in numbered_slots() {
        assert_eq!(groups.next(), Some(expected));
    }
    assert_eq!(groups.next(), None);
}

#[test]
fn no_groups_means_exhausted_at_once() {
    let record = cmsgcred(0, numbered_slots());
    let mut groups = Credentials::Cmsgcred(&record).groups();
    assert_eq!(groups.len(), 0);
    assert_eq!(groups.size_hint(), (0, Some(0)));
    assert_eq!(groups.next(), None);
}

#[test]
fn size_hint_is_exact() {
    let record = cmsgcred(5, numbered_slots());
    let mut groups = Credentials::Cmsgcred(&record).groups();
    assert_eq!(groups.size_hint(), (5, Some(5)));
    assert_eq!(groups.next(), Some(10));
    assert_eq!(groups.size_hint(), (4, Some(4)));
}

#[test]
fn cloned_cursor_walks_on_its_own() {
    let record = cmsgcred(2, numbered_slots());
    let mut groups = Credentials::Cmsgcred(&record).groups();
    assert_eq!(groups.next(), Some(10));
    let mut copy = groups.clone();
    assert_eq!(copy.len(), 1);
    assert_eq!(copy.next(), Some(11));
    assert_eq!(copy.next(), None);
    assert_eq!(groups.len(), 1);
    assert_eq!(groups.next(), Some(11));
}

#[test]
fn sockcred_groups_follow_reported_count() {
    let record = sockcred(2, vec![7, 8, 9]);
    let mut groups = Credentials::Sockcred(&record).groups();
    assert_eq!(groups.len(), 2);
    assert_eq!(groups.next(), Some(7));
    assert_eq!(groups.next(), Some(8));
    assert_eq!(groups.next(), None);
}

#[test]
fn sockcred_may_report_more_than_sixteen() {
    let all: Vec<u32> = (1..=20).collect();
    let record = sockcred(20, all.clone());
    let mut groups = Credentials::Sockcred(&record).groups();
    assert_eq!(groups.len(), 20);
    let mut seen = Vec::new();
    while let Some(gid) = groups.next() {
        seen.push(gid);
    }
    assert_eq!(seen, all);
}

#[test]
fn cmsgcred_accessors() {
    let record = cmsgcred(1, numbered_slots());
    let credentials = Credentials::Cmsgcred(&record);
    assert_eq!(credentials.euid(), Some(1001));
    assert_eq!(credentials.ruid(), Some(1000));
    assert_eq!(credentials.rgid(), Some(2000));
    assert_eq!(credentials.egid(), None);
    assert_eq!(credentials.pid(), Some(4242));
}

#[test]
fn sockcred_accessors() {
    let record = sockcred(0, Vec::new());
    let credentials = Credentials::Sockcred(&record);
    assert_eq!(credentials.euid(), Some(501));
    assert_eq!(credentials.ruid(), Some(500));
    assert_eq!(credentials.rgid(), Some(600));
    assert_eq!(credentials.egid(), Some(601));
    assert_eq!(credentials.pid(), None);
}

#[test]
fn zero_ids_are_present_not_absent() {
    let record = cmsgcred_packed {
        cmcred_pid: 0,
        cmcred_uid: 0,
        cmcred_euid: 0,
        cmcred_gid: 0,
        cmcred_ngroups: 0,
        __pad0: 0,
        cmcred_groups: [0; 16],
    };
    let credentials = Credentials::Cmsgcred(&record);
    assert_eq!(credentials.euid(), Some(0));
    assert_eq!(credentials.ruid(), Some(0));
    assert_eq!(credentials.rgid(), Some(0));
    assert_eq!(credentials.pid(), Some(0));
    assert_eq!(credentials.egid(), None);
}

#[test]
fn well_formed_records() {
    assert!(cmsgcred(0, numbered_slots()).is_well_formed());
    assert!(cmsgcred(i16::MAX, numbered_slots()).is_well_formed());
    assert!(sockcred(0, Vec::new()).is_well_formed());
    assert!(sockcred(3, vec![1, 2, 3]).is_well_formed());
    let record = sockcred(2, vec![1, 2, 3]);
    assert!(Credentials::Sockcred(&record).is_well_formed());
}

#[test]
fn negative_count_is_not_well_formed() {
    assert!(!cmsgcred(-1, numbered_slots()).is_well_formed());
    assert!(!cmsgcred(i16::MIN, numbered_slots()).is_well_formed());
    assert!(!sockcred(-1, vec![1]).is_well_formed());
    let record = cmsgcred(-1, numbered_slots());
    assert!(!Credentials::Cmsgcred(&record).is_well_formed());
}

#[test]
fn count_beyond_the_array_is_not_well_formed() {
    assert!(!sockcred(4, vec![1, 2, 3]).is_well_formed());
    assert!(!sockcred(1, Vec::new()).is_well_formed());
}
