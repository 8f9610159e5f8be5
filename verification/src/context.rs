//! What one connection knows about itself: the database it has selected and
//! the number of databases the store offers.

use vstd::prelude::*;
use crate::command::Command;
use crate::decimal::{parse_u32, parse_uint};
use crate::error::{DbError, NO_FREE_DATABASE, NO_NAMESPACE};

verus! {

/// The bookkeeping of one connection. The connection itself stays with its
/// owner, who sends what this type asks for and reports what came back.
#[derive(Debug, PartialEq, Eq, Structural)]
pub struct RedisCtx {
    /// The selected database; 0 while none has been selected.
    pub db: u32,
    /// The number of databases the store offers; 0 while it is not known.
    pub maxdb: u32,
}

/// The database count that a reply to the configuration question carries:
/// the number in the second of exactly two fields, and 0 for any other reply.
/// 0 stands for "not known".
pub open spec fn count_of_reply(res: Seq<Seq<char>>) -> u32 {
    if res.len() == 2 {
        match parse_u32(res[1]) {
            Some(m) => m,
            None => 0,
        }
    } else {
        0
    }
}

/// Reads the database count out of a reply to the configuration question.
/// A reply of another shape is not an error: it gives 0.
pub fn max_db_index_to_uint(res: Vec<String>) -> (r: u32)
    ensures
        r == count_of_reply(res.deep_view()),
        res.len() != 2 || parse_u32(res[1]@) is None ==> r == 0,
{
    if res.len() == 2 {
        match parse_uint(res[1].as_str()) {
            Some(m) => m,
            None => 0,
        }
    } else {
        0
    }
}

impl Clone for RedisCtx {
    fn clone(&self) -> (r: RedisCtx)
        ensures
            r == *self,
    {
        RedisCtx { db: self.db, maxdb: self.maxdb }
    }
}

impl RedisCtx {
    /// The question that has to be put to the store before the count can be
    /// told: none once the count is known.
    pub open spec fn count_question(self) -> Option<Command> {
        if self.maxdb > 0 {
            None
        } else {
            Some(Command::ConfigGetDatabases)
        }
    }

    /// The context as `max_db_index` leaves it. A count that is known stays;
    /// otherwise a reply that arrived sets it, to 0 if it is malformed.
    pub open spec fn after_count(
        self,
        reply: Option<Result<Vec<String>, redis::RedisError>>,
    ) -> RedisCtx {
        if self.maxdb > 0 {
            self
        } else {
            match reply {
                Some(Ok(res)) => RedisCtx { db: self.db, maxdb: count_of_reply(res.deep_view()) },
                _ => self,
            }
        }
    }

    /// The count that `max_db_index` reports, `None` where it fails: the
    /// known count if there is one, else what the reply carries. Only a
    /// question that the driver could not get answered fails.
    pub open spec fn count_reported(
        self,
        reply: Option<Result<Vec<String>, redis::RedisError>>,
    ) -> Option<u32> {
        if self.maxdb > 0 {
            Some(self.maxdb)
        } else {
            match reply {
                Some(Ok(res)) => Some(count_of_reply(res.deep_view())),
                Some(Err(_)) => None,
                None => Some(0),
            }
        }
    }

    /// The context as `set_namespace` leaves it: bound to `db_index` if the
    /// store acknowledged the selection, unchanged if it did not.
    pub open spec fn after_select(
        self,
        db_index: u32,
        reply: Result<String, redis::RedisError>,
    ) -> RedisCtx {
        match reply {
            Ok(_) => RedisCtx { db: db_index, maxdb: self.maxdb },
            Err(_) => self,
        }
    }

    /// The bookkeeping of a fresh connection: nothing selected, count unknown.
    pub fn new() -> (r: RedisCtx)
        ensures
            r.db == 0,
            r.maxdb == 0,
    {
        RedisCtx { db: 0, maxdb: 0 }
    }

    /// The question to send before `max_db_index`, if any: none once the
    /// count is known.
    pub fn max_db_index_request(&self) -> (r: Option<Command>)
        ensures
            r == self.count_question(),
    {
        if self.maxdb > 0 {
            None
        } else {
            Some(Command::ConfigGetDatabases)
        }
    }

    /// The number of databases the store offers. `reply` is the answer to
    /// the question that `max_db_index_request` gave, `None` if it gave none.
    /// A known count is returned as it is and the reply is not looked at.
    pub fn max_db_index(&mut self, reply: Option<Result<Vec<String>, redis::RedisError>>) -> (r:
        Result<u32, DbError>)
        ensures
            *final(self) == old(self).after_count(reply),
            final(self).db == old(self).db,
            old(self).maxdb > 0 ==> final(self).maxdb == old(self).maxdb,
            match old(self).count_reported(reply) {
                Some(n) => r == Ok::<u32, DbError>(n) && n == final(self).maxdb,
                None => r matches Err(DbError::CustomErr(m)) && m@ == NO_FREE_DATABASE@,
            },
    {
        if self.maxdb > 0 {
            return Ok(self.maxdb);
        }
        match reply {
            Some(Ok(res)) => {
                self.maxdb = max_db_index_to_uint(res);
                Ok(self.maxdb)
            },
            Some(Err(_)) => Err(DbError::custom(NO_FREE_DATABASE)),
            None => Ok(0),
        }
    }

    /// Records the store's answer to `Command::Select(db_index)`. An
    /// acknowledgement binds the connection to `db_index` and is returned;
    /// a refusal leaves the selected database as it was.
    pub fn set_namespace(&mut self, db_index: u32, reply: Result<String, redis::RedisError>) -> (r:
        Result<String, DbError>)
        ensures
            *final(self) == old(self).after_select(db_index, reply),
            final(self).maxdb == old(self).maxdb,
            match reply {
                Ok(ack) => r == Ok::<String, DbError>(ack),
                Err(_) => r matches Err(DbError::CustomErr(m)) && m@ == NO_NAMESPACE@,
            },
    {
        match reply {
            Ok(ack) => {
                self.db = db_index;
                Ok(ack)
            },
            Err(_) => Err(DbError::custom(NO_NAMESPACE)),
        }
    }

    /// The outcome of `Command::SetInt`: done, or the driver's failure.
    pub fn redis_set_key_int(reply: Result<(), redis::RedisError>) -> (r: Result<(), DbError>)
        ensures
            match reply {
                Ok(_) => r is Ok,
                Err(e) => r == Err::<(), DbError>(DbError::RedisErr(e)),
            },
    {
        match reply {
            Ok(_) => Ok(()),
            Err(e) => Err(DbError::from(e)),
        }
    }

    /// The outcome of `Command::Get`: the value, `None` where the key holds
    /// nothing, or the driver's failure. A missing key is not a failure.
    pub fn redis_get_int(reply: Result<Option<String>, redis::RedisError>) -> (r: Result<
        Option<String>,
        DbError,
    >)
        ensures
            match reply {
                Ok(value) => r == Ok::<Option<String>, DbError>(value),
                Err(e) => r == Err::<Option<String>, DbError>(DbError::RedisErr(e)),
            },
    {
        match reply {
            Ok(value) => Ok(value),
            Err(e) => Err(DbError::from(e)),
        }
    }
}

/// A reply of two fields whose second is a number above 0 makes that number
/// the count, and from then on the count is settled: no question is asked
/// again, and whatever is offered as a reply later, the same count is
/// reported and the context stays as it is.
pub proof fn law_count_is_cached(
    ctx: RedisCtx,
    res: Vec<String>,
    m: u32,
    later: Option<Result<Vec<String>, redis::RedisError>>,
)
    requires
        ctx.maxdb == 0,
        res.deep_view().len() == 2,
        parse_u32(res.deep_view()[1]) == Some(m),
        m > 0,
    ensures
        ctx.count_reported(Some(Ok(res))) == Some(m),
        ctx.after_count(Some(Ok(res))).maxdb == m,
        ctx.after_count(Some(Ok(res))).count_question() is None,
        ctx.after_count(Some(Ok(res))).count_reported(later) == Some(m),
        ctx.after_count(Some(Ok(res))).after_count(later) == ctx.after_count(Some(Ok(res))),
{
}

/// A reply that does not have exactly two fields, or whose second field is
/// no number, is no failure: the count is reported as 0, and it stays unknown.
pub proof fn law_malformed_count_is_zero(ctx: RedisCtx, res: Vec<String>)
    requires
        ctx.maxdb == 0,
        res.deep_view().len() != 2 || parse_u32(res.deep_view()[1]) is None,
    ensures
        ctx.count_reported(Some(Ok(res))) == Some(0u32),
        ctx.after_count(Some(Ok(res))) == ctx,
{
}

} // verus!
