//! The decisions of the verbs entry points that the C headers define
//! inline: which of the driver's operations an entry point reaches, or the
//! status it reports without reaching any.

use vstd::prelude::*;
use crate::bindings::{
    EINVAL, ENOSYS, EOPNOTSUPP, EPERM, IBV_ACCESS_OPTIONAL_RANGE, IBV_MW_TYPE_1, IBV_QP_INIT_ATTR_PD,
};

verus! {

/// Where an entry point goes.
#[derive(Debug, Clone, Copy, PartialEq, Eq, Structural)]
pub enum Route {
    /// To the operation of the extended context.
    Extended,
    /// To the operation that older drivers offer.
    Legacy,
    /// Nowhere: the entry point reports this status itself.
    Refuse(i32),
}

/// What an entry point sees of a device context when it looks for one of
/// the extended operations.
#[derive(Debug, Clone, Copy, PartialEq, Eq, Structural)]
pub struct ExtendedContext {
    /// Whether the context is marked as an extended one.
    pub marked: bool,
    /// The size that the driver declared for its extended context.
    pub declared_size: usize,
    /// The size of the extended context as this library knows it.
    pub known_size: usize,
}

/// Whether a context offers the extended operation whose slot lies at
/// `offset` within the extended context: it is marked as extended, the
/// driver's context reaches back far enough to hold the slot, and the slot
/// is filled.
pub open spec fn offers(ctx: ExtendedContext, offset: usize, filled: bool) -> bool {
    ctx.marked && ctx.declared_size >= ctx.known_size - offset && filled
}

/// Decides [`offers`].
pub fn verbs_get_ctx_op(ctx: &ExtendedContext, offset: usize, filled: bool) -> (b: bool)
    requires
        offset <= ctx.known_size,
    ensures
        b == offers(*ctx, offset, filled),
{
    ctx.marked && ctx.declared_size >= ctx.known_size - offset && filled
}

/// Creating an extended completion queue needs the extended operation.
pub fn ibv_create_cq_ex(offered: bool) -> (r: Route)
    ensures
        r == if offered {
            Route::Extended
        } else {
            Route::Refuse(EOPNOTSUPP)
        },
{
    if !offered {
        return Route::Refuse(EOPNOTSUPP);
    }
    Route::Extended
}

/// Querying a port falls back to the older operation.
pub fn ibv_query_port(offered: bool) -> (r: Route)
    ensures
        r == if offered {
            Route::Extended
        } else {
            Route::Legacy
        },
{
    if !offered {
        return Route::Legacy;
    }
    Route::Extended
}

/// Where the extended device query goes first. An input that asks for
/// anything is refused: nothing can be asked for yet. `input_mask` is the
/// mask of the input, where one was given.
pub fn ibv_query_device_ex(input_mask: Option<u32>, offered: bool) -> (r: Route)
    ensures
        r == if input_mask matches Some(mask) && mask != 0 {
            Route::Refuse(EINVAL)
        } else if offered {
            Route::Extended
        } else {
            Route::Legacy
        },
{
    if let Some(mask) = input_mask {
        if mask != 0 {
            return Route::Refuse(EINVAL);
        }
    }
    if !offered {
        return Route::Legacy;
    }
    Route::Extended
}

/// Whether the extended device query, which answered `ret`, is to be asked
/// again in the older way: the driver does not support the new one.
pub fn query_device_falls_back(ret: i32) -> (b: bool)
    ensures
        b == (ret == EOPNOTSUPP || ret == ENOSYS),
{
    ret == EOPNOTSUPP || ret == ENOSYS
}

/// Creating a queue pair with nothing but a protection domain among the
/// extended attributes is what the older operation does; anything more
/// needs the extended one.
pub fn ibv_create_qp_ex(comp_mask: u32, offered: bool) -> (r: Route)
    ensures
        r == if comp_mask == IBV_QP_INIT_ATTR_PD {
            Route::Legacy
        } else if offered {
            Route::Extended
        } else {
            Route::Refuse(EOPNOTSUPP)
        },
{
    if comp_mask == IBV_QP_INIT_ATTR_PD {
        return Route::Legacy;
    }
    if !offered {
        return Route::Refuse(EOPNOTSUPP);
    }
    Route::Extended
}

/// Allocating a memory window needs the driver's operation for it.
pub fn ibv_alloc_mw(filled: bool) -> (r: Route)
    ensures
        r == if filled {
            Route::Legacy
        } else {
            Route::Refuse(EOPNOTSUPP)
        },
{
    if !filled {
        return Route::Refuse(EOPNOTSUPP);
    }
    Route::Legacy
}

/// Allocating device memory needs the extended operation.
pub fn ibv_alloc_dm(offered: bool) -> (r: Route)
    ensures
        r == if offered {
            Route::Extended
        } else {
            Route::Refuse(EOPNOTSUPP)
        },
{
    if !offered {
        return Route::Refuse(EOPNOTSUPP);
    }
    Route::Extended
}

/// Freeing device memory needs the extended operation.
pub fn ibv_free_dm(offered: bool) -> (r: Route)
    ensures
        r == if offered {
            Route::Extended
        } else {
            Route::Refuse(EOPNOTSUPP)
        },
{
    if !offered {
        return Route::Refuse(EOPNOTSUPP);
    }
    Route::Extended
}

/// What a bind request on a queue pair names.
#[derive(Debug, Clone, Copy, PartialEq, Eq, Structural)]
pub struct MwBind {
    /// The type of the window.
    pub mw_type: u32,
    /// The protection domain of the window.
    pub mw_pd: usize,
    /// The protection domain of the memory region to bind to, where the
    /// request names a region.
    pub mr_pd: Option<usize>,
    pub addr: u64,
    pub length: u64,
}

/// Where a bind request may go, as a status: zero, or why it is refused.
///
/// Only windows of the first type are bound this way. A request without a
/// region unbinds and names no memory. A region must belong to the window's
/// protection domain.
pub open spec fn bind_status(bind: MwBind) -> i32 {
    if bind.mw_type != IBV_MW_TYPE_1 {
        EINVAL
    } else if bind.mr_pd is None && (bind.addr != 0 || bind.length != 0) {
        EINVAL
    } else if bind.mr_pd matches Some(pd) && pd != bind.mw_pd {
        EPERM
    } else {
        0
    }
}

/// Checks a bind request before the driver sees it.
pub fn ibv_bind_mw(bind: &MwBind) -> (r: Route)
    ensures
        r == if bind_status(*bind) == 0 {
            Route::Legacy
        } else {
            Route::Refuse(bind_status(*bind))
        },
{
    if bind.mw_type != IBV_MW_TYPE_1 {
        return Route::Refuse(EINVAL);
    }
    match bind.mr_pd {
        None => {
            if bind.addr != 0 || bind.length != 0 {
                return Route::Refuse(EINVAL);
            }
        },
        Some(pd) => {
            if pd != bind.mw_pd {
                return Route::Refuse(EPERM);
            }
        },
    }
    Route::Legacy
}

/// Registering memory with none of the optional rights is what the older
/// operation does; the optional rights need the newer one.
pub fn ibv_reg_mr(access: u32) -> (r: Route)
    ensures
        r == if access & IBV_ACCESS_OPTIONAL_RANGE == 0 {
            Route::Legacy
        } else {
            Route::Extended
        },
{
    if access & IBV_ACCESS_OPTIONAL_RANGE == 0 {
        return Route::Legacy;
    }
    Route::Extended
}

} // verus!
