//! The literal keywords, verbs and statistic names of the wire
//! protocol, each once as a specification-level byte sequence and
//! once as an executable byte vector proved equal to it.
use vstd::prelude::*;

verus! {

/// Bytes of `STORED`: reply keyword for a successful store.
pub open spec fn kw_stored() -> Seq<u8> {
    seq![83u8, 84u8, 79u8, 82u8, 69u8, 68u8]
}

pub fn lit_kw_stored() -> (r: Vec<u8>) 
    ensures
        r@ == kw_stored(),
{
    let mut r: Vec<u8> = Vec::new();
    r.push(83);
    r.push(84);
    r.push(79);
    r.push(82);
    r.push(69);
    r.push(68);
    proof {
        assert(r@ =~= kw_stored());
    }
    r
}

/// Bytes of `NOT_STORED`: reply keyword for a store the server declined.
pub open spec fn kw_not_stored() -> Seq<u8> {
    seq![78u8, 79u8, 84u8, 95u8, 83u8, 84u8, 79u8, 82u8, 69u8, 68u8]
}

pub fn lit_kw_not_stored() -> (r: Vec<u8>) 
    ensures
        r@ == kw_not_stored(),
{
    let mut r: Vec<u8> = Vec::new();
    r.push(78);
    r.push(79);
    r.push(84);
    r.push(95);
    r.push(83);
    r.push(84);
    r.push(79);
    r.push(82);
    r.push(69);
    r.push(68);
    proof {
        assert(r@ =~= kw_not_stored());
    }
    r
}

/// Bytes of `EXISTS`: reply keyword for a compare-and-swap conflict.
pub open spec fn kw_exists() -> Seq<u8> {
    seq![69u8, 88u8, 73u8, 83u8, 84u8, 83u8]
}

pub fn lit_kw_exists() -> (r: Vec<u8>) 
    ensures
        r@ == kw_exists(),
{
    let mut r: Vec<u8> = Vec::new();
    r.push(69);
    r.push(88);
    r.push(73);
    r.push(83);
    r.push(84);
    r.push(83);
    proof {
        assert(r@ =~= kw_exists());
    }
    r
}

/// Bytes of `NOT_FOUND`: reply keyword for a missing key.
pub open spec fn kw_not_found() -> Seq<u8> {
    seq![78u8, 79u8, 84u8, 95u8, 70u8, 79u8, 85u8, 78u8, 68u8]
}

pub fn lit_kw_not_found() -> (r: Vec<u8>) 
    ensures
        r@ == kw_not_found(),
{
    let mut r: Vec<u8> = Vec::new();
    r.push(78);
    r.push(79);
    r.push(84);
    r.push(95);
    r.push(70);
    r.push(79);
    r.push(85);
    r.push(78);
    r.push(68);
    proof {
        assert(r@ =~= kw_not_found());
    }
    r
}

/// Bytes of `DELETED`: reply keyword for a successful delete.
pub open spec fn kw_deleted() -> Seq<u8> {
    seq![68u8, 69u8, 76u8, 69u8, 84u8, 69u8, 68u8]
}

pub fn lit_kw_deleted() -> (r: Vec<u8>) 
    ensures
        r@ == kw_deleted(),
{
    let mut r: Vec<u8> = Vec::new();
    r.push(68);
    r.push(69);
    r.push(76);
    r.push(69);
    r.push(84);
    r.push(69);
    r.push(68);
    proof {
        assert(r@ =~= kw_deleted());
    }
    r
}

/// Bytes of `TOUCHED`: reply keyword for a successful touch.
pub open spec fn kw_touched() -> Seq<u8> {
    seq![84u8, 79u8, 85u8, 67u8, 72u8, 69u8, 68u8]
}

pub fn lit_kw_touched() -> (r: Vec<u8>) 
    ensures
        r@ == kw_touched(),
{
    let mut r: Vec<u8> = Vec::new();
    r.push(84);
    r.push(79);
    r.push(85);
    r.push(67);
    r.push(72);
    r.push(69);
    r.push(68);
    proof {
        assert(r@ =~= kw_touched());
    }
    r
}

/// Bytes of `ERROR`: reply keyword for a protocol error.
pub open spec fn kw_error() -> Seq<u8> {
    seq![69u8, 82u8, 82u8, 79u8, 82u8]
}

pub fn lit_kw_error() -> (r: Vec<u8>) 
    ensures
        r@ == kw_error(),
{
    let mut r: Vec<u8> = Vec::new();
    r.push(69);
    r.push(82);
    r.push(82);
    r.push(79);
    r.push(82);
    proof {
        assert(r@ =~= kw_error());
    }
    r
}

/// Bytes of `END`: terminator line of a multi-line reply block.
pub open spec fn kw_end() -> Seq<u8> {
    seq![69u8, 78u8, 68u8]
}

pub fn lit_kw_end() -> (r: Vec<u8>) 
    ensures
        r@ == kw_end(),
{
    let mut r: Vec<u8> = Vec::new();
    r.push(69);
    r.push(78);
    r.push(68);
    proof {
        assert(r@ =~= kw_end());
    }
    r
}

/// Bytes of `VALUE`: header keyword of a retrieved item.
pub open spec fn kw_value() -> Seq<u8> {
    seq![86u8, 65u8, 76u8, 85u8, 69u8]
}

pub fn lit_kw_value() -> (r: Vec<u8>) 
    ensures
        r@ == kw_value(),
{
    let mut r: Vec<u8> = Vec::new();
    r.push(86);
    r.push(65);
    r.push(76);
    r.push(85);
    r.push(69);
    proof {
        assert(r@ =~= kw_value());
    }
    r
}

/// Bytes of `STAT`: header keyword of a statistics line.
pub open spec fn kw_stat() -> Seq<u8> {
    seq![83u8, 84u8, 65u8, 84u8]
}

pub fn lit_kw_stat() -> (r: Vec<u8>) 
    ensures
        r@ == kw_stat(),
{
    let mut r: Vec<u8> = Vec::new();
    r.push(83);
    r.push(84);
    r.push(65);
    r.push(84);
    proof {
        assert(r@ =~= kw_stat());
    }
    r
}

/// Bytes of `VERSION`: reply keyword carrying the server version.
pub open spec fn kw_version() -> Seq<u8> {
    seq![86u8, 69u8, 82u8, 83u8, 73u8, 79u8, 78u8]
}

pub fn lit_kw_version() -> (r: Vec<u8>) 
    ensures
        r@ == kw_version(),
{
    let mut r: Vec<u8> = Vec::new();
    r.push(86);
    r.push(69);
    r.push(82);
    r.push(83);
    r.push(73);
    r.push(79);
    r.push(78);
    proof {
        assert(r@ =~= kw_version());
    }
    r
}

/// Bytes of `pid`: statistic name: server process id.
pub open spec fn sn_pid() -> Seq<u8> {
    seq![112u8, 105u8, 100u8]
}

pub fn lit_sn_pid() -> (r: Vec<u8>) 
    ensures
        r@ == sn_pid(),
{
    let mut r: Vec<u8> = Vec::new();
    r.push(112);
    r.push(105);
    r.push(100);
    proof {
        assert(r@ =~= sn_pid());
    }
    r
}

/// Bytes of `uptime`: statistic name: seconds since the server started.
pub open spec fn sn_uptime() -> Seq<u8> {
    seq![117u8, 112u8, 116u8, 105u8, 109u8, 101u8]
}

pub fn lit_sn_uptime() -> (r: Vec<u8>) 
    ensures
        r@ == sn_uptime(),
{
    let mut r: Vec<u8> = Vec::new();
    r.push(117);
    r.push(112);
    r.push(116);
    r.push(105);
    r.push(109);
    r.push(101);
    proof {
        assert(r@ =~= sn_uptime());
    }
    r
}

/// Bytes of `time`: statistic name: current UNIX time on the server.
pub open spec fn sn_time() -> Seq<u8> {
    seq![116u8, 105u8, 109u8, 101u8]
}

pub fn lit_sn_time() -> (r: Vec<u8>) 
    ensures
        r@ == sn_time(),
{
    let mut r: Vec<u8> = Vec::new();
    r.push(116);
    r.push(105);
    r.push(109);
    r.push(101);
    proof {
        assert(r@ =~= sn_time());
    }
    r
}

/// Bytes of `version`: statistic name: server version string.
pub open spec fn sn_version() -> Seq<u8> {
    seq![118u8, 101u8, 114u8, 115u8, 105u8, 111u8, 110u8]
}

pub fn lit_sn_version() -> (r: Vec<u8>) 
    ensures
        r@ == sn_version(),
{
    let mut r: Vec<u8> = Vec::new();
    r.push(118);
    r.push(101);
    r.push(114);
    r.push(115);
    r.push(105);
    r.push(111);
    r.push(110);
    proof {
        assert(r@ =~= sn_version());
    }
    r
}

/// Bytes of `pointer_size`: statistic name: pointer size of the host.
pub open spec fn sn_pointer_size() -> Seq<u8> {
    seq![112u8, 111u8, 105u8, 110u8, 116u8, 101u8, 114u8, 95u8, 115u8, 105u8, 122u8, 101u8]
}

pub fn lit_sn_pointer_size() -> (r: Vec<u8>) 
    ensures
        r@ == sn_pointer_size(),
{
    let mut r: Vec<u8> = Vec::new();
    r.push(112);
    r.push(111);
    r.push(105);
    r.push(110);
    r.push(116);
    r.push(101);
    r.push(114);
    r.push(95);
    r.push(115);
    r.push(105);
    r.push(122);
    r.push(101);
    proof {
        assert(r@ =~= sn_pointer_size());
    }
    r
}

/// Bytes of `rusage_user`: statistic name: accumulated user CPU time.
pub open spec fn sn_rusage_user() -> Seq<u8> {
    seq![114u8, 117u8, 115u8, 97u8, 103u8, 101u8, 95u8, 117u8, 115u8, 101u8, 114u8]
}

pub fn lit_sn_rusage_user() -> (r: Vec<u8>) 
    ensures
        r@ == sn_rusage_user(),
{
    let mut r: Vec<u8> = Vec::new();
    r.push(114);
    r.push(117);
    r.push(115);
    r.push(97);
    r.push(103);
    r.push(101);
    r.push(95);
    r.push(117);
    r.push(115);
    r.push(101);
    r.push(114);
    proof {
        assert(r@ =~= sn_rusage_user());
    }
    r
}

/// Bytes of `rusage_system`: statistic name: accumulated system CPU time.
pub open spec fn sn_rusage_system() -> Seq<u8> {
    seq![114u8, 117u8, 115u8, 97u8, 103u8, 101u8, 95u8, 115u8, 121u8, 115u8, 116u8, 101u8, 109u8]
}

pub fn lit_sn_rusage_system() -> (r: Vec<u8>) 
    ensures
        r@ == sn_rusage_system(),
{
    let mut r: Vec<u8> = Vec::new();
    r.push(114);
    r.push(117);
    r.push(115);
    r.push(97);
    r.push(103);
    r.push(101);
    r.push(95);
    r.push(115);
    r.push(121);
    r.push(115);
    r.push(116);
    r.push(101);
    r.push(109);
    proof {
        assert(r@ =~= sn_rusage_system());
    }
    r
}

/// Bytes of `max_connections`: statistic name: connection limit.
pub open spec fn sn_max_connections() -> Seq<u8> {
    seq![109u8, 97u8, 120u8, 95u8, 99u8, 111u8, 110u8, 110u8, 101u8, 99u8, 116u8, 105u8, 111u8, 110u8, 115u8]
}

pub fn lit_sn_max_connections() -> (r: Vec<u8>) 
    ensures
        r@ == sn_max_connections(),
{
    let mut r: Vec<u8> = Vec::new();
    r.push(109);
    r.push(97);
    r.push(120);
    r.push(95);
    r.push(99);
    r.push(111);
    r.push(110);
    r.push(110);
    r.push(101);
    r.push(99);
    r.push(116);
    r.push(105);
    r.push(111);
    r.push(110);
    r.push(115);
    proof {
        assert(r@ =~= sn_max_connections());
    }
    r
}

/// Bytes of `curr_connections`: statistic name: open connections.
pub open spec fn sn_curr_connections() -> Seq<u8> {
    seq![99u8, 117u8, 114u8, 114u8, 95u8, 99u8, 111u8, 110u8, 110u8, 101u8, 99u8, 116u8, 105u8, 111u8, 110u8, 115u8]
}

pub fn lit_sn_curr_connections() -> (r: Vec<u8>) 
    ensures
        r@ == sn_curr_connections(),
{
    let mut r: Vec<u8> = Vec::new();
    r.push(99);
    r.push(117);
    r.push(114);
    r.push(114);
    r.push(95);
    r.push(99);
    r.push(111);
    r.push(110);
    r.push(110);
    r.push(101);
    r.push(99);
    r.push(116);
    r.push(105);
    r.push(111);
    r.push(110);
    r.push(115);
    proof {
        assert(r@ =~= sn_curr_connections());
    }
    r
}

/// Bytes of `total_connections`: statistic name: connections ever opened.
pub open spec fn sn_total_connections() -> Seq<u8> {
    seq![116u8, 111u8, 116u8, 97u8, 108u8, 95u8, 99u8, 111u8, 110u8, 110u8, 101u8, 99u8, 116u8, 105u8, 111u8, 110u8, 115u8]
}

pub fn lit_sn_total_connections() -> (r: Vec<u8>) 
    ensures
        r@ == sn_total_connections(),
{
    let mut r: Vec<u8> = Vec::new();
    r.push(116);
    r.push(111);
    r.push(116);
    r.push(97);
    r.push(108);
    r.push(95);
    r.push(99);
    r.push(111);
    r.push(110);
    r.push(110);
    r.push(101);
    r.push(99);
    r.push(116);
    r.push(105);
    r.push(111);
    r.push(110);
    r.push(115);
    proof {
        assert(r@ =~= sn_total_connections());
    }
    r
}

/// Bytes of `rejected_connections`: statistic name: rejected connections.
pub open spec fn sn_rejected_connections() -> Seq<u8> {
    seq![114u8, 101u8, 106u8, 101u8, 99u8, 116u8, 101u8, 100u8, 95u8, 99u8, 111u8, 110u8, 110u8, 101u8, 99u8, 116u8, 105u8, 111u8, 110u8, 115u8]
}

pub fn lit_sn_rejected_connections() -> (r: Vec<u8>) 
    ensures
        r@ == sn_rejected_connections(),
{
    let mut r: Vec<u8> = Vec::new();
    r.push(114);
    r.push(101);
    r.push(106);
    r.push(101);
    r.push(99);
    r.push(116);
    r.push(101);
    r.push(100);
    r.push(95);
    r.push(99);
    r.push(111);
    r.push(110);
    r.push(110);
    r.push(101);
    r.push(99);
    r.push(116);
    r.push(105);
    r.push(111);
    r.push(110);
    r.push(115);
    proof {
        assert(r@ =~= sn_rejected_connections());
    }
    r
}

/// Bytes of `connection_structures`: statistic name: allocated connection structures.
pub open spec fn sn_connection_structures() -> Seq<u8> {
    seq![99u8, 111u8, 110u8, 110u8, 101u8, 99u8, 116u8, 105u8, 111u8, 110u8, 95u8, 115u8, 116u8, 114u8, 117u8, 99u8, 116u8, 117u8, 114u8, 101u8, 115u8]
}

pub fn lit_sn_connection_structures() -> (r: Vec<u8>) 
    ensures
        r@ == sn_connection_structures(),
{
    let mut r: Vec<u8> = Vec::new();
    r.push(99);
    r.push(111);
    r.push(110);
    r.push(110);
    r.push(101);
    r.push(99);
    r.push(116);
    r.push(105);
    r.push(111);
    r.push(110);
    r.push(95);
    r.push(115);
    r.push(116);
    r.push(114);
    r.push(117);
    r.push(99);
    r.push(116);
    r.push(117);
    r.push(114);
    r.push(101);
    r.push(115);
    proof {
        assert(r@ =~= sn_connection_structures());
    }
    r
}

/// Bytes of `bytes`: statistic name: bytes used for storage.
pub open spec fn sn_bytes() -> Seq<u8> {
    seq![98u8, 121u8, 116u8, 101u8, 115u8]
}

pub fn lit_sn_bytes() -> (r: Vec<u8>) 
    ensures
        r@ == sn_bytes(),
{
    let mut r: Vec<u8> = Vec::new();
    r.push(98);
    r.push(121);
    r.push(116);
    r.push(101);
    r.push(115);
    proof {
        assert(r@ =~= sn_bytes());
    }
    r
}

/// Bytes of `total_items`: statistic name: items ever stored.
pub open spec fn sn_total_items() -> Seq<u8> {
    seq![116u8, 111u8, 116u8, 97u8, 108u8, 95u8, 105u8, 116u8, 101u8, 109u8, 115u8]
}

pub fn lit_sn_total_items() -> (r: Vec<u8>) 
    ensures
        r@ == sn_total_items(),
{
    let mut r: Vec<u8> = Vec::new();
    r.push(116);
    r.push(111);
    r.push(116);
    r.push(97);
    r.push(108);
    r.push(95);
    r.push(105);
    r.push(116);
    r.push(101);
    r.push(109);
    r.push(115);
    proof {
        assert(r@ =~= sn_total_items());
    }
    r
}

/// Bytes of `curr_items`: statistic name: items stored now.
pub open spec fn sn_curr_items() -> Seq<u8> {
    seq![99u8, 117u8, 114u8, 114u8, 95u8, 105u8, 116u8, 101u8, 109u8, 115u8]
}

pub fn lit_sn_curr_items() -> (r: Vec<u8>) 
    ensures
        r@ == sn_curr_items(),
{
    let mut r: Vec<u8> = Vec::new();
    r.push(99);
    r.push(117);
    r.push(114);
    r.push(114);
    r.push(95);
    r.push(105);
    r.push(116);
    r.push(101);
    r.push(109);
    r.push(115);
    proof {
        assert(r@ =~= sn_curr_items());
    }
    r
}

/// Bytes of `cmd_get`: statistic name: retrieval requests.
pub open spec fn sn_cmd_get() -> Seq<u8> {
    seq![99u8, 109u8, 100u8, 95u8, 103u8, 101u8, 116u8]
}

pub fn lit_sn_cmd_get() -> (r: Vec<u8>) 
    ensures
        r@ == sn_cmd_get(),
{
    let mut r: Vec<u8> = Vec::new();
    r.push(99);
    r.push(109);
    r.push(100);
    r.push(95);
    r.push(103);
    r.push(101);
    r.push(116);
    proof {
        assert(r@ =~= sn_cmd_get());
    }
    r
}

/// Bytes of `cmd_set`: statistic name: storage requests.
pub open spec fn sn_cmd_set() -> Seq<u8> {
    seq![99u8, 109u8, 100u8, 95u8, 115u8, 101u8, 116u8]
}

pub fn lit_sn_cmd_set() -> (r: Vec<u8>) 
    ensures
        r@ == sn_cmd_set(),
{
    let mut r: Vec<u8> = Vec::new();
    r.push(99);
    r.push(109);
    r.push(100);
    r.push(95);
    r.push(115);
    r.push(101);
    r.push(116);
    proof {
        assert(r@ =~= sn_cmd_set());
    }
    r
}

/// Bytes of `incr_hits`: statistic name: successful increments.
pub open spec fn sn_incr_hits() -> Seq<u8> {
    seq![105u8, 110u8, 99u8, 114u8, 95u8, 104u8, 105u8, 116u8, 115u8]
}

pub fn lit_sn_incr_hits() -> (r: Vec<u8>) 
    ensures
        r@ == sn_incr_hits(),
{
    let mut r: Vec<u8> = Vec::new();
    r.push(105);
    r.push(110);
    r.push(99);
    r.push(114);
    r.push(95);
    r.push(104);
    r.push(105);
    r.push(116);
    r.push(115);
    proof {
        assert(r@ =~= sn_incr_hits());
    }
    r
}

/// Bytes of `decr_hits`: statistic name: successful decrements.
pub open spec fn sn_decr_hits() -> Seq<u8> {
    seq![100u8, 101u8, 99u8, 114u8, 95u8, 104u8, 105u8, 116u8, 115u8]
}

pub fn lit_sn_decr_hits() -> (r: Vec<u8>) 
    ensures
        r@ == sn_decr_hits(),
{
    let mut r: Vec<u8> = Vec::new();
    r.push(100);
    r.push(101);
    r.push(99);
    r.push(114);
    r.push(95);
    r.push(104);
    r.push(105);
    r.push(116);
    r.push(115);
    proof {
        assert(r@ =~= sn_decr_hits());
    }
    r
}

/// Bytes of `set`: command verb: store unconditionally.
pub open spec fn vb_set() -> Seq<u8> {
    seq![115u8, 101u8, 116u8]
}

pub fn lit_vb_set() -> (r: Vec<u8>) 
    ensures
        r@ == vb_set(),
{
    let mut r: Vec<u8> = Vec::new();
    r.push(115);
    r.push(101);
    r.push(116);
    proof {
        assert(r@ =~= vb_set());
    }
    r
}

/// Bytes of `add`: command verb: store only a new key.
pub open spec fn vb_add() -> Seq<u8> {
    seq![97u8, 100u8, 100u8]
}

pub fn lit_vb_add() -> (r: Vec<u8>) 
    ensures
        r@ == vb_add(),
{
    let mut r: Vec<u8> = Vec::new();
    r.push(97);
    r.push(100);
    r.push(100);
    proof {
        assert(r@ =~= vb_add());
    }
    r
}

/// Bytes of `replace`: command verb: store only an existing key.
pub open spec fn vb_replace() -> Seq<u8> {
    seq![114u8, 101u8, 112u8, 108u8, 97u8, 99u8, 101u8]
}

pub fn lit_vb_replace() -> (r: Vec<u8>) 
    ensures
        r@ == vb_replace(),
{
    let mut r: Vec<u8> = Vec::new();
    r.push(114);
    r.push(101);
    r.push(112);
    r.push(108);
    r.push(97);
    r.push(99);
    r.push(101);
    proof {
        assert(r@ =~= vb_replace());
    }
    r
}

/// Bytes of `append`: command verb: append to an existing value.
pub open spec fn vb_append() -> Seq<u8> {
    seq![97u8, 112u8, 112u8, 101u8, 110u8, 100u8]
}

pub fn lit_vb_append() -> (r: Vec<u8>) 
    ensures
        r@ == vb_append(),
{
    let mut r: Vec<u8> = Vec::new();
    r.push(97);
    r.push(112);
    r.push(112);
    r.push(101);
    r.push(110);
    r.push(100);
    proof {
        assert(r@ =~= vb_append());
    }
    r
}

/// Bytes of `prepend`: command verb: prepend to an existing value.
pub open spec fn vb_prepend() -> Seq<u8> {
    seq![112u8, 114u8, 101u8, 112u8, 101u8, 110u8, 100u8]
}

pub fn lit_vb_prepend() -> (r: Vec<u8>) 
    ensures
        r@ == vb_prepend(),
{
    let mut r: Vec<u8> = Vec::new();
    r.push(112);
    r.push(114);
    r.push(101);
    r.push(112);
    r.push(101);
    r.push(110);
    r.push(100);
    proof {
        assert(r@ =~= vb_prepend());
    }
    r
}

/// Bytes of `get`: command verb: retrieve one key.
pub open spec fn vb_get() -> Seq<u8> {
    seq![103u8, 101u8, 116u8]
}

pub fn lit_vb_get() -> (r: Vec<u8>) 
    ensures
        r@ == vb_get(),
{
    let mut r: Vec<u8> = Vec::new();
    r.push(103);
    r.push(101);
    r.push(116);
    proof {
        assert(r@ =~= vb_get());
    }
    r
}

/// Bytes of `gets`: command verb: retrieve several keys.
pub open spec fn vb_gets() -> Seq<u8> {
    seq![103u8, 101u8, 116u8, 115u8]
}

pub fn lit_vb_gets() -> (r: Vec<u8>) 
    ensures
        r@ == vb_gets(),
{
    let mut r: Vec<u8> = Vec::new();
    r.push(103);
    r.push(101);
    r.push(116);
    r.push(115);
    proof {
        assert(r@ =~= vb_gets());
    }
    r
}

/// Bytes of `incr`: command verb: increment a counter.
pub open spec fn vb_incr() -> Seq<u8> {
    seq![105u8, 110u8, 99u8, 114u8]
}

pub fn lit_vb_incr() -> (r: Vec<u8>) 
    ensures
        r@ == vb_incr(),
{
    let mut r: Vec<u8> = Vec::new();
    r.push(105);
    r.push(110);
    r.push(99);
    r.push(114);
    proof {
        assert(r@ =~= vb_incr());
    }
    r
}

/// Bytes of `decr`: command verb: decrement a counter.
pub open spec fn vb_decr() -> Seq<u8> {
    seq![100u8, 101u8, 99u8, 114u8]
}

pub fn lit_vb_decr() -> (r: Vec<u8>) 
    ensures
        r@ == vb_decr(),
{
    let mut r: Vec<u8> = Vec::new();
    r.push(100);
    r.push(101);
    r.push(99);
    r.push(114);
    proof {
        assert(r@ =~= vb_decr());
    }
    r
}

/// Bytes of `delete`: command verb: delete a key.
pub open spec fn vb_delete() -> Seq<u8> {
    seq![100u8, 101u8, 108u8, 101u8, 116u8, 101u8]
}

pub fn lit_vb_delete() -> (r: Vec<u8>) 
    ensures
        r@ == vb_delete(),
{
    let mut r: Vec<u8> = Vec::new();
    r.push(100);
    r.push(101);
    r.push(108);
    r.push(101);
    r.push(116);
    r.push(101);
    proof {
        assert(r@ =~= vb_delete());
    }
    r
}

/// Bytes of `stats`: command verb: ask for statistics.
pub open spec fn vb_stats() -> Seq<u8> {
    seq![115u8, 116u8, 97u8, 116u8, 115u8]
}

pub fn lit_vb_stats() -> (r: Vec<u8>) 
    ensures
        r@ == vb_stats(),
{
    let mut r: Vec<u8> = Vec::new();
    r.push(115);
    r.push(116);
    r.push(97);
    r.push(116);
    r.push(115);
    proof {
        assert(r@ =~= vb_stats());
    }
    r
}

/// Bytes of `version`: command verb: ask for the server version.
pub open spec fn vb_version() -> Seq<u8> {
    seq![118u8, 101u8, 114u8, 115u8, 105u8, 111u8, 110u8]
}

pub fn lit_vb_version() -> (r: Vec<u8>) 
    ensures
        r@ == vb_version(),
{
    let mut r: Vec<u8> = Vec::new();
    r.push(118);
    r.push(101);
    r.push(114);
    r.push(115);
    r.push(105);
    r.push(111);
    r.push(110);
    proof {
        assert(r@ =~= vb_version());
    }
    r
}

/// Bytes of `quit`: command verb: close the connection.
pub open spec fn vb_quit() -> Seq<u8> {
    seq![113u8, 117u8, 105u8, 116u8]
}

pub fn lit_vb_quit() -> (r: Vec<u8>) 
    ensures
        r@ == vb_quit(),
{
    let mut r: Vec<u8> = Vec::new();
    r.push(113);
    r.push(117);
    r.push(105);
    r.push(116);
    proof {
        assert(r@ =~= vb_quit());
    }
    r
}

/// Bytes of `"\r\n"`
pub open spec fn crlf() -> Seq<u8> {
    seq![13u8, 10u8]
}


} // verus!
