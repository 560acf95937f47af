//! Tuples of requests: the operations of one member after those of the other.
use crate::compound::{
    lemma_operations_of_both, pair_into_arg_array, pair_process_reply, CompoundRequest,
};
use crate::error::Result;
use crate::ops::{ArgOp, OperationId, ResOp};
use std::collections::VecDeque;
use vstd::prelude::*;

verus! {

impl<A: CompoundRequest, B: CompoundRequest> CompoundRequest for (A, B) {
    type Response = (A::Response, B::Response);

    type Geometry = (A::Geometry, B::Geometry);

    open spec fn operations(self) -> Seq<ArgOp> {
        self.0.operations() + self.1.operations()
    }

    open spec fn has_shape(self, geometry: Self::Geometry) -> bool {
        self.0.has_shape(geometry.0) && self.1.has_shape(geometry.1)
    }

    open spec fn expected(geometry: Self::Geometry) -> Seq<OperationId> {
        A::expected(geometry.0) + B::expected(geometry.1)
    }

    open spec fn answered(
        geometry: Self::Geometry,
        replies: Seq<ResOp>,
        response: Self::Response,
    ) -> bool {
        let n = A::expected(geometry.0).len() as int;
        &&& A::answered(geometry.0, replies.take(n), response.0)
        &&& B::answered(geometry.1, replies.skip(n), response.1)
    }

    proof fn lemma_shape(self, geometry: Self::Geometry) {
        self.0.lemma_shape(geometry.0);
        self.1.lemma_shape(geometry.1);
        lemma_operations_of_both(self.0.operations(), self.1.operations());
    }

    fn into_arg_array(self) -> (parts: (Vec<ArgOp>, Self::Geometry)) {
        let (v, g0, g1) = pair_into_arg_array(self.0, self.1);
        (v, (g0, g1))
    }

    fn process_reply(res_array: &mut VecDeque<ResOp>, geometry: Self::Geometry) -> (response:
        Result<Self::Response>) {
        match pair_process_reply::<A, B>(res_array, geometry.0, geometry.1) {
            Ok((r0, r1)) => Ok((r0, r1)),
            Err(e) => Err(e),
        }
    }
}

impl<
    A: CompoundRequest,
    B: CompoundRequest,
    C: CompoundRequest,
> CompoundRequest for (A, B, C) {
    type Response = (A::Response, B::Response, C::Response);

    type Geometry = (A::Geometry, B::Geometry, C::Geometry);

    open spec fn operations(self) -> Seq<ArgOp> {
        let rest = (self.1, self.2);
        self.0.operations() + rest.operations()
    }

    open spec fn has_shape(self, geometry: Self::Geometry) -> bool {
        &&& self.0.has_shape(geometry.0)
        &&& self.1.has_shape(geometry.1)
        &&& self.2.has_shape(geometry.2)
    }

    open spec fn expected(geometry: Self::Geometry) -> Seq<OperationId> {
        let rest = (geometry.1, geometry.2);
        A::expected(geometry.0) + <(B, C) as CompoundRequest>::expected(rest)
    }

    open spec fn answered(
        geometry: Self::Geometry,
        replies: Seq<ResOp>,
        response: Self::Response,
    ) -> bool {
        let n = A::expected(geometry.0).len() as int;
        let rest = (geometry.1, geometry.2);
        let gives = (response.1, response.2);
        &&& A::answered(geometry.0, replies.take(n), response.0)
        &&& <(B, C) as CompoundRequest>::answered(rest, replies.skip(n), gives)
    }

    proof fn lemma_shape(self, geometry: Self::Geometry) {
        let rest = (self.1, self.2);
        self.0.lemma_shape(geometry.0);
        rest.lemma_shape((geometry.1, geometry.2));
        lemma_operations_of_both(self.0.operations(), rest.operations());
    }

    fn into_arg_array(self) -> (parts: (Vec<ArgOp>, Self::Geometry)) {
        let rest = (self.1, self.2);
        let (v, g0, tail) = pair_into_arg_array(self.0, rest);
        let (g1, g2) = tail;
        (v, (g0, g1, g2))
    }

    fn process_reply(res_array: &mut VecDeque<ResOp>, geometry: Self::Geometry) -> (response:
        Result<Self::Response>) {
        let rest = (geometry.1, geometry.2);
        match pair_process_reply::<A, (B, C)>(res_array, geometry.0, rest) {
            Ok((r0, tail)) => {
                let (r1, r2) = tail;
                Ok((r0, r1, r2))
            },
            Err(e) => Err(e),
        }
    }
}

impl<
    A: CompoundRequest,
    B: CompoundRequest,
    C: CompoundRequest,
    D: CompoundRequest,
> CompoundRequest for (A, B, C, D) {
    type Response = (A::Response, B::Response, C::Response, D::Response);

    type Geometry = (A::Geometry, B::Geometry, C::Geometry, D::Geometry);

    open spec fn operations(self) -> Seq<ArgOp> {
        let rest = (self.1, self.2, self.3);
        self.0.operations() + rest.operations()
    }

    open spec fn has_shape(self, geometry: Self::Geometry) -> bool {
        &&& self.0.has_shape(geometry.0)
        &&& self.1.has_shape(geometry.1)
        &&& self.2.has_shape(geometry.2)
        &&& self.3.has_shape(geometry.3)
    }

    open spec fn expected(geometry: Self::Geometry) -> Seq<OperationId> {
        let rest = (geometry.1, geometry.2, geometry.3);
        A::expected(geometry.0) + <(B, C, D) as CompoundRequest>::expected(rest)
    }

    open spec fn answered(
        geometry: Self::Geometry,
        replies: Seq<ResOp>,
        response: Self::Response,
    ) -> bool {
        let n = A::expected(geometry.0).len() as int;
        let rest = (geometry.1, geometry.2, geometry.3);
        let gives = (response.1, response.2, response.3);
        &&& A::answered(geometry.0, replies.take(n), response.0)
        &&& <(B, C, D) as CompoundRequest>::answered(rest, replies.skip(n), gives)
    }

    proof fn lemma_shape(self, geometry: Self::Geometry) {
        let rest = (self.1, self.2, self.3);
        self.0.lemma_shape(geometry.0);
        rest.lemma_shape((geometry.1, geometry.2, geometry.3));
        lemma_operations_of_both(self.0.operations(), rest.operations());
    }

    fn into_arg_array(self) -> (parts: (Vec<ArgOp>, Self::Geometry)) {
        let rest = (self.1, self.2, self.3);
        let (v, g0, tail) = pair_into_arg_array(self.0, rest);
        let (g1, g2, g3) = tail;
        (v, (g0, g1, g2, g3))
    }

    fn process_reply(res_array: &mut VecDeque<ResOp>, geometry: Self::Geometry) -> (response:
        Result<Self::Response>) {
        let rest = (geometry.1, geometry.2, geometry.3);
        match pair_process_reply::<A, (B, C, D)>(res_array, geometry.0, rest) {
            Ok((r0, tail)) => {
                let (r1, r2, r3) = tail;
                Ok((r0, r1, r2, r3))
            },
            Err(e) => Err(e),
        }
    }
}

impl<
    A: CompoundRequest,
    B: CompoundRequest,
    C: CompoundRequest,
    D: CompoundRequest,
    E: CompoundRequest,
> CompoundRequest for (A, B, C, D, E) {
    type Response = (A::Response, B::Response, C::Response, D::Response, E::Response);

    type Geometry = (A::Geometry, B::Geometry, C::Geometry, D::Geometry, E::Geometry);

    open spec fn operations(self) -> Seq<ArgOp> {
        let rest = (self.1, self.2, self.3, self.4);
        self.0.operations() + rest.operations()
    }

    open spec fn has_shape(self, geometry: Self::Geometry) -> bool {
        &&& self.0.has_shape(geometry.0)
        &&& self.1.has_shape(geometry.1)
        &&& self.2.has_shape(geometry.2)
        &&& self.3.has_shape(geometry.3)
        &&& self.4.has_shape(geometry.4)
    }

    open spec fn expected(geometry: Self::Geometry) -> Seq<OperationId> {
        let rest = (geometry.1, geometry.2, geometry.3, geometry.4);
        A::expected(geometry.0) + <(B, C, D, E) as CompoundRequest>::expected(rest)
    }

    open spec fn answered(
        geometry: Self::Geometry,
        replies: Seq<ResOp>,
        response: Self::Response,
    ) -> bool {
        let n = A::expected(geometry.0).len() as int;
        let rest = (geometry.1, geometry.2, geometry.3, geometry.4);
        let gives = (response.1, response.2, response.3, response.4);
        &&& A::answered(geometry.0, replies.take(n), response.0)
        &&& <(B, C, D, E) as CompoundRequest>::answered(rest, replies.skip(n), gives)
    }

    proof fn lemma_shape(self, geometry: Self::Geometry) {
        let rest = (self.1, self.2, self.3, self.4);
        self.0.lemma_shape(geometry.0);
        rest.lemma_shape((geometry.1, geometry.2, geometry.3, geometry.4));
        lemma_operations_of_both(self.0.operations(), rest.operations());
    }

    fn into_arg_array(self) -> (parts: (Vec<ArgOp>, Self::Geometry)) {
        let rest = (self.1, self.2, self.3, self.4);
        let (v, g0, tail) = pair_into_arg_array(self.0, rest);
        let (g1, g2, g3, g4) = tail;
        (v, (g0, g1, g2, g3, g4))
    }

    fn process_reply(res_array: &mut VecDeque<ResOp>, geometry: Self::Geometry) -> (response:
        Result<Self::Response>) {
        let rest = (geometry.1, geometry.2, geometry.3, geometry.4);
        match pair_process_reply::<A, (B, C, D, E)>(res_array, geometry.0, rest) {
            Ok((r0, tail)) => {
                let (r1, r2, r3, r4) = tail;
                Ok((r0, r1, r2, r3, r4))
            },
            Err(e) => Err(e),
        }
    }
}

impl<
    A: CompoundRequest,
    B: CompoundRequest,
    C: CompoundRequest,
    D: CompoundRequest,
    E: CompoundRequest,
    F: CompoundRequest,
> CompoundRequest for (A, B, C, D, E, F) {
    type Response = (A::Response, B::Response, C::Response, D::Response, E::Response, F::Response);

    type Geometry = (A::Geometry, B::Geometry, C::Geometry, D::Geometry, E::Geometry, F::Geometry);

    open spec fn operations(self) -> Seq<ArgOp> {
        let rest = (self.1, self.2, self.3, self.4, self.5);
        self.0.operations() + rest.operations()
    }

    open spec fn has_shape(self, geometry: Self::Geometry) -> bool {
        &&& self.0.has_shape(geometry.0)
        &&& self.1.has_shape(geometry.1)
        &&& self.2.has_shape(geometry.2)
        &&& self.3.has_shape(geometry.3)
        &&& self.4.has_shape(geometry.4)
        &&& self.5.has_shape(geometry.5)
    }

    open spec fn expected(geometry: Self::Geometry) -> Seq<OperationId> {
        let rest = (geometry.1, geometry.2, geometry.3, geometry.4, geometry.5);
        A::expected(geometry.0) + <(B, C, D, E, F) as CompoundRequest>::expected(rest)
    }

    open spec fn answered(
        geometry: Self::Geometry,
        replies: Seq<ResOp>,
        response: Self::Response,
    ) -> bool {
        let n = A::expected(geometry.0).len() as int;
        let rest = (geometry.1, geometry.2, geometry.3, geometry.4, geometry.5);
        let gives = (response.1, response.2, response.3, response.4, response.5);
        &&& A::answered(geometry.0, replies.take(n), response.0)
        &&& <(B, C, D, E, F) as CompoundRequest>::answered(rest, replies.skip(n), gives)
    }

    proof fn lemma_shape(self, geometry: Self::Geometry) {
        let rest = (self.1, self.2, self.3, self.4, self.5);
        self.0.lemma_shape(geometry.0);
        rest.lemma_shape((geometry.1, geometry.2, geometry.3, geometry.4, geometry.5));
        lemma_operations_of_both(self.0.operations(), rest.operations());
    }

    fn into_arg_array(self) -> (parts: (Vec<ArgOp>, Self::Geometry)) {
        let rest = (self.1, self.2, self.3, self.4, self.5);
        let (v, g0, tail) = pair_into_arg_array(self.0, rest);
        let (g1, g2, g3, g4, g5) = tail;
        (v, (g0, g1, g2, g3, g4, g5))
    }

    fn process_reply(res_array: &mut VecDeque<ResOp>, geometry: Self::Geometry) -> (response:
        Result<Self::Response>) {
        let rest = (geometry.1, geometry.2, geometry.3, geometry.4, geometry.5);
        match pair_process_reply::<A, (B, C, D, E, F)>(res_array, geometry.0, rest) {
            Ok((r0, tail)) => {
                let (r1, r2, r3, r4, r5) = tail;
                Ok((r0, r1, r2, r3, r4, r5))
            },
            Err(e) => Err(e),
        }
    }
}

impl<
    A: CompoundRequest,
    B: CompoundRequest,
    C: CompoundRequest,
    D: CompoundRequest,
    E: CompoundRequest,
    F: CompoundRequest,
    G: CompoundRequest,
> CompoundRequest for (A, B, C, D, E, F, G) {
    type Response = (
        A::Response, B::Response, C::Response, D::Response, E::Response, F::Response, G::Response,
    );

    type Geometry = (
        A::Geometry, B::Geometry, C::Geometry, D::Geometry, E::Geometry, F::Geometry, G::Geometry,
    );

    open spec fn operations(self) -> Seq<ArgOp> {
        let rest = (self.1, self.2, self.3, self.4, self.5, self.6);
        self.0.operations() + rest.operations()
    }

    open spec fn has_shape(self, geometry: Self::Geometry) -> bool {
        &&& self.0.has_shape(geometry.0)
        &&& self.1.has_shape(geometry.1)
        &&& self.2.has_shape(geometry.2)
        &&& self.3.has_shape(geometry.3)
        &&& self.4.has_shape(geometry.4)
        &&& self.5.has_shape(geometry.5)
        &&& self.6.has_shape(geometry.6)
    }

    open spec fn expected(geometry: Self::Geometry) -> Seq<OperationId> {
        let rest = (geometry.1, geometry.2, geometry.3, geometry.4, geometry.5, geometry.6);
        A::expected(geometry.0) + <(B, C, D, E, F, G) as CompoundRequest>::expected(rest)
    }

    open spec fn answered(
        geometry: Self::Geometry,
        replies: Seq<ResOp>,
        response: Self::Response,
    ) -> bool {
        let n = A::expected(geometry.0).len() as int;
        let rest = (geometry.1, geometry.2, geometry.3, geometry.4, geometry.5, geometry.6);
        let gives = (response.1, response.2, response.3, response.4, response.5, response.6);
        &&& A::answered(geometry.0, replies.take(n), response.0)
        &&& <(B, C, D, E, F, G) as CompoundRequest>::answered(rest, replies.skip(n), gives)
    }

    proof fn lemma_shape(self, geometry: Self::Geometry) {
        let rest = (self.1, self.2, self.3, self.4, self.5, self.6);
        self.0.lemma_shape(geometry.0);
        rest.lemma_shape((geometry.1, geometry.2, geometry.3, geometry.4, geometry.5, geometry.6));
        lemma_operations_of_both(self.0.operations(), rest.operations());
    }

    fn into_arg_array(self) -> (parts: (Vec<ArgOp>, Self::Geometry)) {
        let rest = (self.1, self.2, self.3, self.4, self.5, self.6);
        let (v, g0, tail) = pair_into_arg_array(self.0, rest);
        let (g1, g2, g3, g4, g5, g6) = tail;
        (v, (g0, g1, g2, g3, g4, g5, g6))
    }

    fn process_reply(res_array: &mut VecDeque<ResOp>, geometry: Self::Geometry) -> (response:
        Result<Self::Response>) {
        let rest = (geometry.1, geometry.2, geometry.3, geometry.4, geometry.5, geometry.6);
        match pair_process_reply::<A, (B, C, D, E, F, G)>(res_array, geometry.0, rest) {
            Ok((r0, tail)) => {
                let (r1, r2, r3, r4, r5, r6) = tail;
                Ok((r0, r1, r2, r3, r4, r5, r6))
            },
            Err(e) => Err(e),
        }
    }
}

impl<
    A: CompoundRequest,
    B: CompoundRequest,
    C: CompoundRequest,
    D: CompoundRequest,
    E: CompoundRequest,
    F: CompoundRequest,
    G: CompoundRequest,
    H: CompoundRequest,
> CompoundRequest for (A, B, C, D, E, F, G, H) {
    type Response = (
        A::Response, B::Response, C::Response, D::Response, E::Response, F::Response, G::Response,
        H::Response,
    );

    type Geometry = (
        A::Geometry, B::Geometry, C::Geometry, D::Geometry, E::Geometry, F::Geometry, G::Geometry,
        H::Geometry,
    );

    open spec fn operations(self) -> Seq<ArgOp> {
        let rest = (self.1, self.2, self.3, self.4, self.5, self.6, self.7);
        self.0.operations() + rest.operations()
    }

    open spec fn has_shape(self, geometry: Self::Geometry) -> bool {
        &&& self.0.has_shape(geometry.0)
        &&& self.1.has_shape(geometry.1)
        &&& self.2.has_shape(geometry.2)
        &&& self.3.has_shape(geometry.3)
        &&& self.4.has_shape(geometry.4)
        &&& self.5.has_shape(geometry.5)
        &&& self.6.has_shape(geometry.6)
        &&& self.7.has_shape(geometry.7)
    }

    open spec fn expected(geometry: Self::Geometry) -> Seq<OperationId> {
        let rest = (
            geometry.1, geometry.2, geometry.3, geometry.4, geometry.5, geometry.6, geometry.7,
        );
        A::expected(geometry.0) + <(B, C, D, E, F, G, H) as CompoundRequest>::expected(rest)
    }

    open spec fn answered(
        geometry: Self::Geometry,
        replies: Seq<ResOp>,
        response: Self::Response,
    ) -> bool {
        let n = A::expected(geometry.0).len() as int;
        let rest = (
            geometry.1, geometry.2, geometry.3, geometry.4, geometry.5, geometry.6, geometry.7,
        );
        let gives = (
            response.1, response.2, response.3, response.4, response.5, response.6, response.7,
        );
        &&& A::answered(geometry.0, replies.take(n), response.0)
        &&& <(B, C, D, E, F, G, H) as CompoundRequest>::answered(rest, replies.skip(n), gives)
    }

    proof fn lemma_shape(self, geometry: Self::Geometry) {
        let rest = (self.1, self.2, self.3, self.4, self.5, self.6, self.7);
        self.0.lemma_shape(geometry.0);
        rest.lemma_shape((
            geometry.1, geometry.2, geometry.3, geometry.4, geometry.5, geometry.6, geometry.7,
        ));
        lemma_operations_of_both(self.0.operations(), rest.operations());
    }

    fn into_arg_array(self) -> (parts: (Vec<ArgOp>, Self::Geometry)) {
        let rest = (self.1, self.2, self.3, self.4, self.5, self.6, self.7);
        let (v, g0, tail) = pair_into_arg_array(self.0, rest);
        let (g1, g2, g3, g4, g5, g6, g7) = tail;
        (v, (g0, g1, g2, g3, g4, g5, g6, g7))
    }

    fn process_reply(res_array: &mut VecDeque<ResOp>, geometry: Self::Geometry) -> (response:
        Result<Self::Response>) {
        let rest = (
            geometry.1, geometry.2, geometry.3, geometry.4, geometry.5, geometry.6, geometry.7,
        );
        match pair_process_reply::<A, (B, C, D, E, F, G, H)>(res_array, geometry.0, rest) {
            Ok((r0, tail)) => {
                let (r1, r2, r3, r4, r5, r6, r7) = tail;
                Ok((r0, r1, r2, r3, r4, r5, r6, r7))
            },
            Err(e) => Err(e),
        }
    }
}

impl<
    A: CompoundRequest,
    B: CompoundRequest,
    C: CompoundRequest,
    D: CompoundRequest,
    E: CompoundRequest,
    F: CompoundRequest,
    G: CompoundRequest,
    H: CompoundRequest,
    I: CompoundRequest,
> CompoundRequest for (A, B, C, D, E, F, G, H, I) {
    type Response = (
        A::Response, B::Response, C::Response, D::Response, E::Response, F::Response, G::Response,
        H::Response, I::Response,
    );

    type Geometry = (
        A::Geometry, B::Geometry, C::Geometry, D::Geometry, E::Geometry, F::Geometry, G::Geometry,
        H::Geometry, I::Geometry,
    );

    open spec fn operations(self) -> Seq<ArgOp> {
        let rest = (self.1, self.2, self.3, self.4, self.5, self.6, self.7, self.8);
        self.0.operations() + rest.operations()
    }

    open spec fn has_shape(self, geometry: Self::Geometry) -> bool {
        &&& self.0.has_shape(geometry.0)
        &&& self.1.has_shape(geometry.1)
        &&& self.2.has_shape(geometry.2)
        &&& self.3.has_shape(geometry.3)
        &&& self.4.has_shape(geometry.4)
        &&& self.5.has_shape(geometry.5)
        &&& self.6.has_shape(geometry.6)
        &&& self.7.has_shape(geometry.7)
        &&& self.8.has_shape(geometry.8)
    }

    open spec fn expected(geometry: Self::Geometry) -> Seq<OperationId> {
        let rest = (
            geometry.1, geometry.2, geometry.3, geometry.4, geometry.5, geometry.6, geometry.7,
            geometry.8,
        );
        A::expected(geometry.0) + <(B, C, D, E, F, G, H, I) as CompoundRequest>::expected(rest)
    }

    open spec fn answered(
        geometry: Self::Geometry,
        replies: Seq<ResOp>,
        response: Self::Response,
    ) -> bool {
        let n = A::expected(geometry.0).len() as int;
        let rest = (
            geometry.1, geometry.2, geometry.3, geometry.4, geometry.5, geometry.6, geometry.7,
            geometry.8,
        );
        let gives = (
            response.1, response.2, response.3, response.4, response.5, response.6, response.7,
            response.8,
        );
        &&& A::answered(geometry.0, replies.take(n), response.0)
        &&& <(B, C, D, E, F, G, H, I) as CompoundRequest>::answered(rest, replies.skip(n), gives)
    }

    proof fn lemma_shape(self, geometry: Self::Geometry) {
        let rest = (self.1, self.2, self.3, self.4, self.5, self.6, self.7, self.8);
        self.0.lemma_shape(geometry.0);
        rest.lemma_shape((
            geometry.1, geometry.2, geometry.3, geometry.4, geometry.5, geometry.6, geometry.7,
            geometry.8,
        ));
        lemma_operations_of_both(self.0.operations(), rest.operations());
    }

    fn into_arg_array(self) -> (parts: (Vec<ArgOp>, Self::Geometry)) {
        let rest = (self.1, self.2, self.3, self.4, self.5, self.6, self.7, self.8);
        let (v, g0, tail) = pair_into_arg_array(self.0, rest);
        let (g1, g2, g3, g4, g5, g6, g7, g8) = tail;
        (v, (g0, g1, g2, g3, g4, g5, g6, g7, g8))
    }

    fn process_reply(res_array: &mut VecDeque<ResOp>, geometry: Self::Geometry) -> (response:
        Result<Self::Response>) {
        let rest = (
            geometry.1, geometry.2, geometry.3, geometry.4, geometry.5, geometry.6, geometry.7,
            geometry.8,
        );
        match pair_process_reply::<A, (B, C, D, E, F, G, H, I)>(res_array, geometry.0, rest) {
            Ok((r0, tail)) => {
                let (r1, r2, r3, r4, r5, r6, r7, r8) = tail;
                Ok((r0, r1, r2, r3, r4, r5, r6, r7, r8))
            },
            Err(e) => Err(e),
        }
    }
}

impl<
    A: CompoundRequest,
    B: CompoundRequest,
    C: CompoundRequest,
    D: CompoundRequest,
    E: CompoundRequest,
    F: CompoundRequest,
    G: CompoundRequest,
    H: CompoundRequest,
    I: CompoundRequest,
    J: CompoundRequest,
> CompoundRequest for (A, B, C, D, E, F, G, H, I, J) {
    type Response = (
        A::Response, B::Response, C::Response, D::Response, E::Response, F::Response, G::Response,
        H::Response, I::Response, J::Response,
    );

    type Geometry = (
        A::Geometry, B::Geometry, C::Geometry, D::Geometry, E::Geometry, F::Geometry, G::Geometry,
        H::Geometry, I::Geometry, J::Geometry,
    );

    open spec fn operations(self) -> Seq<ArgOp> {
        let rest = (self.1, self.2, self.3, self.4, self.5, self.6, self.7, self.8, self.9);
        self.0.operations() + rest.operations()
    }

    open spec fn has_shape(self, geometry: Self::Geometry) -> bool {
        &&& self.0.has_shape(geometry.0)
        &&& self.1.has_shape(geometry.1)
        &&& self.2.has_shape(geometry.2)
        &&& self.3.has_shape(geometry.3)
        &&& self.4.has_shape(geometry.4)
        &&& self.5.has_shape(geometry.5)
        &&& self.6.has_shape(geometry.6)
        &&& self.7.has_shape(geometry.7)
        &&& self.8.has_shape(geometry.8)
        &&& self.9.has_shape(geometry.9)
    }

    open spec fn expected(geometry: Self::Geometry) -> Seq<OperationId> {
        let rest = (
            geometry.1, geometry.2, geometry.3, geometry.4, geometry.5, geometry.6, geometry.7,
            geometry.8, geometry.9,
        );
        A::expected(geometry.0) + <(B, C, D, E, F, G, H, I, J) as CompoundRequest>::expected(rest)
    }

    open spec fn answered(
        geometry: Self::Geometry,
        replies: Seq<ResOp>,
        response: Self::Response,
    ) -> bool {
        let n = A::expected(geometry.0).len() as int;
        let rest = (
            geometry.1, geometry.2, geometry.3, geometry.4, geometry.5, geometry.6, geometry.7,
            geometry.8, geometry.9,
        );
        let gives = (
            response.1, response.2, response.3, response.4, response.5, response.6, response.7,
            response.8, response.9,
        );
        &&& A::answered(geometry.0, replies.take(n), response.0)
        &&& <(B, C, D, E, F, G, H, I, J) as CompoundRequest>::answered(rest, replies.skip(n), gives)
    }

    proof fn lemma_shape(self, geometry: Self::Geometry) {
        let rest = (self.1, self.2, self.3, self.4, self.5, self.6, self.7, self.8, self.9);
        self.0.lemma_shape(geometry.0);
        rest.lemma_shape((
            geometry.1, geometry.2, geometry.3, geometry.4, geometry.5, geometry.6, geometry.7,
            geometry.8, geometry.9,
        ));
        lemma_operations_of_both(self.0.operations(), rest.operations());
    }

    fn into_arg_array(self) -> (parts: (Vec<ArgOp>, Self::Geometry)) {
        let rest = (self.1, self.2, self.3, self.4, self.5, self.6, self.7, self.8, self.9);
        let (v, g0, tail) = pair_into_arg_array(self.0, rest);
        let (g1, g2, g3, g4, g5, g6, g7, g8, g9) = tail;
        (v, (g0, g1, g2, g3, g4, g5, g6, g7, g8, g9))
    }

    fn process_reply(res_array: &mut VecDeque<ResOp>, geometry: Self::Geometry) -> (response:
        Result<Self::Response>) {
        let rest = (
            geometry.1, geometry.2, geometry.3, geometry.4, geometry.5, geometry.6, geometry.7,
            geometry.8, geometry.9,
        );
        match pair_process_reply::<A, (B, C, D, E, F, G, H, I, J)>(res_array, geometry.0, rest) {
            Ok((r0, tail)) => {
                let (r1, r2, r3, r4, r5, r6, r7, r8, r9) = tail;
                Ok((r0, r1, r2, r3, r4, r5, r6, r7, r8, r9))
            },
            Err(e) => Err(e),
        }
    }
}

impl<
    A: CompoundRequest,
    B: CompoundRequest,
    C: CompoundRequest,
    D: CompoundRequest,
    E: CompoundRequest,
    F: CompoundRequest,
    G: CompoundRequest,
    H: CompoundRequest,
    I: CompoundRequest,
    J: CompoundRequest,
    K: CompoundRequest,
> CompoundRequest for (A, B, C, D, E, F, G, H, I, J, K) {
    type Response = (
        A::Response, B::Response, C::Response, D::Response, E::Response, F::Response, G::Response,
        H::Response, I::Response, J::Response, K::Response,
    );

    type Geometry = (
        A::Geometry, B::Geometry, C::Geometry, D::Geometry, E::Geometry, F::Geometry, G::Geometry,
        H::Geometry, I::Geometry, J::Geometry, K::Geometry,
    );

    open spec fn operations(self) -> Seq<ArgOp> {
        let rest = (
            self.1, self.2, self.3, self.4, self.5, self.6, self.7, self.8, self.9, self.10,
        );
        self.0.operations() + rest.operations()
    }

    open spec fn has_shape(self, geometry: Self::Geometry) -> bool {
        &&& self.0.has_shape(geometry.0)
        &&& self.1.has_shape(geometry.1)
        &&& self.2.has_shape(geometry.2)
        &&& self.3.has_shape(geometry.3)
        &&& self.4.has_shape(geometry.4)
        &&& self.5.has_shape(geometry.5)
        &&& self.6.has_shape(geometry.6)
        &&& self.7.has_shape(geometry.7)
        &&& self.8.has_shape(geometry.8)
        &&& self.9.has_shape(geometry.9)
        &&& self.10.has_shape(geometry.10)
    }

    open spec fn expected(geometry: Self::Geometry) -> Seq<OperationId> {
        let rest = (
            geometry.1, geometry.2, geometry.3, geometry.4, geometry.5, geometry.6, geometry.7,
            geometry.8, geometry.9, geometry.10,
        );
        A::expected(geometry.0) + <(B, C, D, E, F, G, H, I, J, K) as CompoundRequest>::expected(rest)
    }

    open spec fn answered(
        geometry: Self::Geometry,
        replies: Seq<ResOp>,
        response: Self::Response,
    ) -> bool {
        let n = A::expected(geometry.0).len() as int;
        let rest = (
            geometry.1, geometry.2, geometry.3, geometry.4, geometry.5, geometry.6, geometry.7,
            geometry.8, geometry.9, geometry.10,
        );
        let gives = (
            response.1, response.2, response.3, response.4, response.5, response.6, response.7,
            response.8, response.9, response.10,
        );
        &&& A::answered(geometry.0, replies.take(n), response.0)
        &&& <(B, C, D, E, F, G, H, I, J, K) as CompoundRequest>::answered(rest, replies.skip(n), gives)
    }

    proof fn lemma_shape(self, geometry: Self::Geometry) {
        let rest = (
            self.1, self.2, self.3, self.4, self.5, self.6, self.7, self.8, self.9, self.10,
        );
        self.0.lemma_shape(geometry.0);
        rest.lemma_shape((
            geometry.1, geometry.2, geometry.3, geometry.4, geometry.5, geometry.6, geometry.7,
            geometry.8, geometry.9, geometry.10,
        ));
        lemma_operations_of_both(self.0.operations(), rest.operations());
    }

    fn into_arg_array(self) -> (parts: (Vec<ArgOp>, Self::Geometry)) {
        let rest = (
            self.1, self.2, self.3, self.4, self.5, self.6, self.7, self.8, self.9, self.10,
        );
        let (v, g0, tail) = pair_into_arg_array(self.0, rest);
        let (g1, g2, g3, g4, g5, g6, g7, g8, g9, g10) = tail;
        (v, (g0, g1, g2, g3, g4, g5, g6, g7, g8, g9, g10))
    }

    fn process_reply(res_array: &mut VecDeque<ResOp>, geometry: Self::Geometry) -> (response:
        Result<Self::Response>) {
        let rest = (
            geometry.1, geometry.2, geometry.3, geometry.4, geometry.5, geometry.6, geometry.7,
            geometry.8, geometry.9, geometry.10,
        );
        match pair_process_reply::<A, (B, C, D, E, F, G, H, I, J, K)>(res_array, geometry.0, rest) {
            Ok((r0, tail)) => {
                let (r1, r2, r3, r4, r5, r6, r7, r8, r9, r10) = tail;
                Ok((r0, r1, r2, r3, r4, r5, r6, r7, r8, r9, r10))
            },
            Err(e) => Err(e),
        }
    }
}

impl<
    A: CompoundRequest,
    B: CompoundRequest,
    C: CompoundRequest,
    D: CompoundRequest,
    E: CompoundRequest,
    F: CompoundRequest,
    G: CompoundRequest,
    H: CompoundRequest,
    I: CompoundRequest,
    J: CompoundRequest,
    K: CompoundRequest,
    L: CompoundRequest,
> CompoundRequest for (A, B, C, D, E, F, G, H, I, J, K, L) {
    type Response = (
        A::Response, B::Response, C::Response, D::Response, E::Response, F::Response, G::Response,
        H::Response, I::Response, J::Response, K::Response, L::Response,
    );

    type Geometry = (
        A::Geometry, B::Geometry, C::Geometry, D::Geometry, E::Geometry, F::Geometry, G::Geometry,
        H::Geometry, I::Geometry, J::Geometry, K::Geometry, L::Geometry,
    );

    open spec fn operations(self) -> Seq<ArgOp> {
        let rest = (
            self.1, self.2, self.3, self.4, self.5, self.6, self.7, self.8, self.9, self.10,
            self.11,
        );
        self.0.operations() + rest.operations()
    }

    open spec fn has_shape(self, geometry: Self::Geometry) -> bool {
        &&& self.0.has_shape(geometry.0)
        &&& self.1.has_shape(geometry.1)
        &&& self.2.has_shape(geometry.2)
        &&& self.3.has_shape(geometry.3)
        &&& self.4.has_shape(geometry.4)
        &&& self.5.has_shape(geometry.5)
        &&& self.6.has_shape(geometry.6)
        &&& self.7.has_shape(geometry.7)
        &&& self.8.has_shape(geometry.8)
        &&& self.9.has_shape(geometry.9)
        &&& self.10.has_shape(geometry.10)
        &&& self.11.has_shape(geometry.11)
    }

    open spec fn expected(geometry: Self::Geometry) -> Seq<OperationId> {
        let rest = (
            geometry.1, geometry.2, geometry.3, geometry.4, geometry.5, geometry.6, geometry.7,
            geometry.8, geometry.9, geometry.10, geometry.11,
        );
        A::expected(geometry.0) + <(B, C, D, E, F, G, H, I, J, K, L) as CompoundRequest>::expected(rest)
    }

    open spec fn answered(
        geometry: Self::Geometry,
        replies: Seq<ResOp>,
        response: Self::Response,
    ) -> bool {
        let n = A::expected(geometry.0).len() as int;
        let rest = (
            geometry.1, geometry.2, geometry.3, geometry.4, geometry.5, geometry.6, geometry.7,
            geometry.8, geometry.9, geometry.10, geometry.11,
        );
        let gives = (
            response.1, response.2, response.3, response.4, response.5, response.6, response.7,
            response.8, response.9, response.10, response.11,
        );
        &&& A::answered(geometry.0, replies.take(n), response.0)
        &&& <(B, C, D, E, F, G, H, I, J, K, L) as CompoundRequest>::answered(rest, replies.skip(n), gives)
    }

    proof fn lemma_shape(self, geometry: Self::Geometry) {
        let rest = (
            self.1, self.2, self.3, self.4, self.5, self.6, self.7, self.8, self.9, self.10,
            self.11,
        );
        self.0.lemma_shape(geometry.0);
        rest.lemma_shape((
            geometry.1, geometry.2, geometry.3, geometry.4, geometry.5, geometry.6, geometry.7,
            geometry.8, geometry.9, geometry.10, geometry.11,
        ));
        lemma_operations_of_both(self.0.operations(), rest.operations());
    }

    fn into_arg_array(self) -> (parts: (Vec<ArgOp>, Self::Geometry)) {
        let rest = (
            self.1, self.2, self.3, self.4, self.5, self.6, self.7, self.8, self.9, self.10,
            self.11,
        );
        let (v, g0, tail) = pair_into_arg_array(self.0, rest);
        let (g1, g2, g3, g4, g5, g6, g7, g8, g9, g10, g11) = tail;
        (v, (g0, g1, g2, g3, g4, g5, g6, g7, g8, g9, g10, g11))
    }

    fn process_reply(res_array: &mut VecDeque<ResOp>, geometry: Self::Geometry) -> (response:
        Result<Self::Response>) {
        let rest = (
            geometry.1, geometry.2, geometry.3, geometry.4, geometry.5, geometry.6, geometry.7,
            geometry.8, geometry.9, geometry.10, geometry.11,
        );
        match pair_process_reply::<A, (B, C, D, E, F, G, H, I, J, K, L)>(res_array, geometry.0, rest) {
            Ok((r0, tail)) => {
                let (r1, r2, r3, r4, r5, r6, r7, r8, r9, r10, r11) = tail;
                Ok((r0, r1, r2, r3, r4, r5, r6, r7, r8, r9, r10, r11))
            },
            Err(e) => Err(e),
        }
    }
}

impl<
    A: CompoundRequest,
    B: CompoundRequest,
    C: CompoundRequest,
    D: CompoundRequest,
    E: CompoundRequest,
    F: CompoundRequest,
    G: CompoundRequest,
    H: CompoundRequest,
    I: CompoundRequest,
    J: CompoundRequest,
    K: CompoundRequest,
    L: CompoundRequest,
    M: CompoundRequest,
> CompoundRequest for (A, B, C, D, E, F, G, H, I, J, K, L, M) {
    type Response = (
        A::Response, B::Response, C::Response, D::Response, E::Response, F::Response, G::Response,
        H::Response, I::Response, J::Response, K::Response, L::Response, M::Response,
    );

    type Geometry = (
        A::Geometry, B::Geometry, C::Geometry, D::Geometry, E::Geometry, F::Geometry, G::Geometry,
        H::Geometry, I::Geometry, J::Geometry, K::Geometry, L::Geometry, M::Geometry,
    );

    open spec fn operations(self) -> Seq<ArgOp> {
        let rest = (
            self.1, self.2, self.3, self.4, self.5, self.6, self.7, self.8, self.9, self.10,
            self.11, self.12,
        );
        self.0.operations() + rest.operations()
    }

    open spec fn has_shape(self, geometry: Self::Geometry) -> bool {
        &&& self.0.has_shape(geometry.0)
        &&& self.1.has_shape(geometry.1)
        &&& self.2.has_shape(geometry.2)
        &&& self.3.has_shape(geometry.3)
        &&& self.4.has_shape(geometry.4)
        &&& self.5.has_shape(geometry.5)
        &&& self.6.has_shape(geometry.6)
        &&& self.7.has_shape(geometry.7)
        &&& self.8.has_shape(geometry.8)
        &&& self.9.has_shape(geometry.9)
        &&& self.10.has_shape(geometry.10)
        &&& self.11.has_shape(geometry.11)
        &&& self.12.has_shape(geometry.12)
    }

    open spec fn expected(geometry: Self::Geometry) -> Seq<OperationId> {
        let rest = (
            geometry.1, geometry.2, geometry.3, geometry.4, geometry.5, geometry.6, geometry.7,
            geometry.8, geometry.9, geometry.10, geometry.11, geometry.12,
        );
        A::expected(geometry.0) + <(B, C, D, E, F, G, H, I, J, K, L, M) as CompoundRequest>::expected(rest)
    }

    open spec fn answered(
        geometry: Self::Geometry,
        replies: Seq<ResOp>,
        response: Self::Response,
    ) -> bool {
        let n = A::expected(geometry.0).len() as int;
        let rest = (
            geometry.1, geometry.2, geometry.3, geometry.4, geometry.5, geometry.6, geometry.7,
            geometry.8, geometry.9, geometry.10, geometry.11, geometry.12,
        );
        let gives = (
            response.1, response.2, response.3, response.4, response.5, response.6, response.7,
            response.8, response.9, response.10, response.11, response.12,
        );
        &&& A::answered(geometry.0, replies.take(n), response.0)
        &&& <(B, C, D, E, F, G, H, I, J, K, L, M) as CompoundRequest>::answered(rest, replies.skip(n), gives)
    }

    proof fn lemma_shape(self, geometry: Self::Geometry) {
        let rest = (
            self.1, self.2, self.3, self.4, self.5, self.6, self.7, self.8, self.9, self.10,
            self.11, self.12,
        );
        self.0.lemma_shape(geometry.0);
        rest.lemma_shape((
            geometry.1, geometry.2, geometry.3, geometry.4, geometry.5, geometry.6, geometry.7,
            geometry.8, geometry.9, geometry.10, geometry.11, geometry.12,
        ));
        lemma_operations_of_both(self.0.operations(), rest.operations());
    }

    fn into_arg_array(self) -> (parts: (Vec<ArgOp>, Self::Geometry)) {
        let rest = (
            self.1, self.2, self.3, self.4, self.5, self.6, self.7, self.8, self.9, self.10,
            self.11, self.12,
        );
        let (v, g0, tail) = pair_into_arg_array(self.0, rest);
        let (g1, g2, g3, g4, g5, g6, g7, g8, g9, g10, g11, g12) = tail;
        (v, (g0, g1, g2, g3, g4, g5, g6, g7, g8, g9, g10, g11, g12))
    }

    fn process_reply(res_array: &mut VecDeque<ResOp>, geometry: Self::Geometry) -> (response:
        Result<Self::Response>) {
        let rest = (
            geometry.1, geometry.2, geometry.3, geometry.4, geometry.5, geometry.6, geometry.7,
            geometry.8, geometry.9, geometry.10, geometry.11, geometry.12,
        );
        match pair_process_reply::<A, (B, C, D, E, F, G, H, I, J, K, L, M)>(res_array, geometry.0, rest) {
            Ok((r0, tail)) => {
                let (r1, r2, r3, r4, r5, r6, r7, r8, r9, r10, r11, r12) = tail;
                Ok((r0, r1, r2, r3, r4, r5, r6, r7, r8, r9, r10, r11, r12))
            },
            Err(e) => Err(e),
        }
    }
}

impl<
    A: CompoundRequest,
    B: CompoundRequest,
    C: CompoundRequest,
    D: CompoundRequest,
    E: CompoundRequest,
    F: CompoundRequest,
    G: CompoundRequest,
    H: CompoundRequest,
    I: CompoundRequest,
    J: CompoundRequest,
    K: CompoundRequest,
    L: CompoundRequest,
    M: CompoundRequest,
    N: CompoundRequest,
> CompoundRequest for (A, B, C, D, E, F, G, H, I, J, K, L, M, N) {
    type Response = (
        A::Response, B::Response, C::Response, D::Response, E::Response, F::Response, G::Response,
        H::Response, I::Response, J::Response, K::Response, L::Response, M::Response, N::Response,
    );

    type Geometry = (
        A::Geometry, B::Geometry, C::Geometry, D::Geometry, E::Geometry, F::Geometry, G::Geometry,
        H::Geometry, I::Geometry, J::Geometry, K::Geometry, L::Geometry, M::Geometry, N::Geometry,
    );

    open spec fn operations(self) -> Seq<ArgOp> {
        let rest = (
            self.1, self.2, self.3, self.4, self.5, self.6, self.7, self.8, self.9, self.10,
            self.11, self.12, self.13,
        );
        self.0.operations() + rest.operations()
    }

    open spec fn has_shape(self, geometry: Self::Geometry) -> bool {
        &&& self.0.has_shape(geometry.0)
        &&& self.1.has_shape(geometry.1)
        &&& self.2.has_shape(geometry.2)
        &&& self.3.has_shape(geometry.3)
        &&& self.4.has_shape(geometry.4)
        &&& self.5.has_shape(geometry.5)
        &&& self.6.has_shape(geometry.6)
        &&& self.7.has_shape(geometry.7)
        &&& self.8.has_shape(geometry.8)
        &&& self.9.has_shape(geometry.9)
        &&& self.10.has_shape(geometry.10)
        &&& self.11.has_shape(geometry.11)
        &&& self.12.has_shape(geometry.12)
        &&& self.13.has_shape(geometry.13)
    }

    open spec fn expected(geometry: Self::Geometry) -> Seq<OperationId> {
        let rest = (
            geometry.1, geometry.2, geometry.3, geometry.4, geometry.5, geometry.6, geometry.7,
            geometry.8, geometry.9, geometry.10, geometry.11, geometry.12, geometry.13,
        );
        A::expected(geometry.0) + <(B, C, D, E, F, G, H, I, J, K, L, M, N) as CompoundRequest>::expected(rest)
    }

    open spec fn answered(
        geometry: Self::Geometry,
        replies: Seq<ResOp>,
        response: Self::Response,
    ) -> bool {
        let n = A::expected(geometry.0).len() as int;
        let rest = (
            geometry.1, geometry.2, geometry.3, geometry.4, geometry.5, geometry.6, geometry.7,
            geometry.8, geometry.9, geometry.10, geometry.11, geometry.12, geometry.13,
        );
        let gives = (
            response.1, response.2, response.3, response.4, response.5, response.6, response.7,
            response.8, response.9, response.10, response.11, response.12, response.13,
        );
        &&& A::answered(geometry.0, replies.take(n), response.0)
        &&& <(B, C, D, E, F, G, H, I, J, K, L, M, N) as CompoundRequest>::answered(rest, replies.skip(n), gives)
    }

    proof fn lemma_shape(self, geometry: Self::Geometry) {
        let rest = (
            self.1, self.2, self.3, self.4, self.5, self.6, self.7, self.8, self.9, self.10,
            self.11, self.12, self.13,
        );
        self.0.lemma_shape(geometry.0);
        rest.lemma_shape((
            geometry.1, geometry.2, geometry.3, geometry.4, geometry.5, geometry.6, geometry.7,
            geometry.8, geometry.9, geometry.10, geometry.11, geometry.12, geometry.13,
        ));
        lemma_operations_of_both(self.0.operations(), rest.operations());
    }

    fn into_arg_array(self) -> (parts: (Vec<ArgOp>, Self::Geometry)) {
        let rest = (
            self.1, self.2, self.3, self.4, self.5, self.6, self.7, self.8, self.9, self.10,
            self.11, self.12, self.13,
        );
        let (v, g0, tail) = pair_into_arg_array(self.0, rest);
        let (g1, g2, g3, g4, g5, g6, g7, g8, g9, g10, g11, g12, g13) = tail;
        (v, (g0, g1, g2, g3, g4, g5, g6, g7, g8, g9, g10, g11, g12, g13))
    }

    fn process_reply(res_array: &mut VecDeque<ResOp>, geometry: Self::Geometry) -> (response:
        Result<Self::Response>) {
        let rest = (
            geometry.1, geometry.2, geometry.3, geometry.4, geometry.5, geometry.6, geometry.7,
            geometry.8, geometry.9, geometry.10, geometry.11, geometry.12, geometry.13,
        );
        match pair_process_reply::<A, (B, C, D, E, F, G, H, I, J, K, L, M, N)>(res_array, geometry.0, rest) {
            Ok((r0, tail)) => {
                let (r1, r2, r3, r4, r5, r6, r7, r8, r9, r10, r11, r12, r13) = tail;
                Ok((r0, r1, r2, r3, r4, r5, r6, r7, r8, r9, r10, r11, r12, r13))
            },
            Err(e) => Err(e),
        }
    }
}

impl<
    A: CompoundRequest,
    B: CompoundRequest,
    C: CompoundRequest,
    D: CompoundRequest,
    E: CompoundRequest,
    F: CompoundRequest,
    G: CompoundRequest,
    H: CompoundRequest,
    I: CompoundRequest,
    J: CompoundRequest,
    K: CompoundRequest,
    L: CompoundRequest,
    M: CompoundRequest,
    N: CompoundRequest,
    O: CompoundRequest,
> CompoundRequest for (A, B, C, D, E, F, G, H, I, J, K, L, M, N, O) {
    type Response = (
        A::Response, B::Response, C::Response, D::Response, E::Response, F::Response, G::Response,
        H::Response, I::Response, J::Response, K::Response, L::Response, M::Response, N::Response,
        O::Response,
    );

    type Geometry = (
        A::Geometry, B::Geometry, C::Geometry, D::Geometry, E::Geometry, F::Geometry, G::Geometry,
        H::Geometry, I::Geometry, J::Geometry, K::Geometry, L::Geometry, M::Geometry, N::Geometry,
        O::Geometry,
    );

    open spec fn operations(self) -> Seq<ArgOp> {
        let rest = (
            self.1, self.2, self.3, self.4, self.5, self.6, self.7, self.8, self.9, self.10,
            self.11, self.12, self.13, self.14,
        );
        self.0.operations() + rest.operations()
    }

    open spec fn has_shape(self, geometry: Self::Geometry) -> bool {
        &&& self.0.has_shape(geometry.0)
        &&& self.1.has_shape(geometry.1)
        &&& self.2.has_shape(geometry.2)
        &&& self.3.has_shape(geometry.3)
        &&& self.4.has_shape(geometry.4)
        &&& self.5.has_shape(geometry.5)
        &&& self.6.has_shape(geometry.6)
        &&& self.7.has_shape(geometry.7)
        &&& self.8.has_shape(geometry.8)
        &&& self.9.has_shape(geometry.9)
        &&& self.10.has_shape(geometry.10)
        &&& self.11.has_shape(geometry.11)
        &&& self.12.has_shape(geometry.12)
        &&& self.13.has_shape(geometry.13)
        &&& self.14.has_shape(geometry.14)
    }

    open spec fn expected(geometry: Self::Geometry) -> Seq<OperationId> {
        let rest = (
            geometry.1, geometry.2, geometry.3, geometry.4, geometry.5, geometry.6, geometry.7,
            geometry.8, geometry.9, geometry.10, geometry.11, geometry.12, geometry.13, geometry.14,
        );
        A::expected(geometry.0) + <(B, C, D, E, F, G, H, I, J, K, L, M, N, O) as CompoundRequest>::expected(rest)
    }

    open spec fn answered(
        geometry: Self::Geometry,
        replies: Seq<ResOp>,
        response: Self::Response,
    ) -> bool {
        let n = A::expected(geometry.0).len() as int;
        let rest = (
            geometry.1, geometry.2, geometry.3, geometry.4, geometry.5, geometry.6, geometry.7,
            geometry.8, geometry.9, geometry.10, geometry.11, geometry.12, geometry.13, geometry.14,
        );
        let gives = (
            response.1, response.2, response.3, response.4, response.5, response.6, response.7,
            response.8, response.9, response.10, response.11, response.12, response.13, response.14,
        );
        &&& A::answered(geometry.0, replies.take(n), response.0)
        &&& <(B, C, D, E, F, G, H, I, J, K, L, M, N, O) as CompoundRequest>::answered(rest, replies.skip(n), gives)
    }

    proof fn lemma_shape(self, geometry: Self::Geometry) {
        let rest = (
            self.1, self.2, self.3, self.4, self.5, self.6, self.7, self.8, self.9, self.10,
            self.11, self.12, self.13, self.14,
        );
        self.0.lemma_shape(geometry.0);
        rest.lemma_shape((
            geometry.1, geometry.2, geometry.3, geometry.4, geometry.5, geometry.6, geometry.7,
            geometry.8, geometry.9, geometry.10, geometry.11, geometry.12, geometry.13, geometry.14,
        ));
        lemma_operations_of_both(self.0.operations(), rest.operations());
    }

    fn into_arg_array(self) -> (parts: (Vec<ArgOp>, Self::Geometry)) {
        let rest = (
            self.1, self.2, self.3, self.4, self.5, self.6, self.7, self.8, self.9, self.10,
            self.11, self.12, self.13, self.14,
        );
        let (v, g0, tail) = pair_into_arg_array(self.0, rest);
        let (g1, g2, g3, g4, g5, g6, g7, g8, g9, g10, g11, g12, g13, g14) = tail;
        (v, (g0, g1, g2, g3, g4, g5, g6, g7, g8, g9, g10, g11, g12, g13, g14))
    }

    fn process_reply(res_array: &mut VecDeque<ResOp>, geometry: Self::Geometry) -> (response:
        Result<Self::Response>) {
        let rest = (
            geometry.1, geometry.2, geometry.3, geometry.4, geometry.5, geometry.6, geometry.7,
            geometry.8, geometry.9, geometry.10, geometry.11, geometry.12, geometry.13, geometry.14,
        );
        match pair_process_reply::<A, (B, C, D, E, F, G, H, I, J, K, L, M, N, O)>(res_array, geometry.0, rest) {
            Ok((r0, tail)) => {
                let (r1, r2, r3, r4, r5, r6, r7, r8, r9, r10, r11, r12, r13, r14) = tail;
                Ok((r0, r1, r2, r3, r4, r5, r6, r7, r8, r9, r10, r11, r12, r13, r14))
            },
            Err(e) => Err(e),
        }
    }
}

impl<
    A: CompoundRequest,
    B: CompoundRequest,
    C: CompoundRequest,
    D: CompoundRequest,
    E: CompoundRequest,
    F: CompoundRequest,
    G: CompoundRequest,
    H: CompoundRequest,
    I: CompoundRequest,
    J: CompoundRequest,
    K: CompoundRequest,
    L: CompoundRequest,
    M: CompoundRequest,
    N: CompoundRequest,
    O: CompoundRequest,
    P: CompoundRequest,
> CompoundRequest for (A, B, C, D, E, F, G, H, I, J, K, L, M, N, O, P) {
    type Response = (
        A::Response, B::Response, C::Response, D::Response, E::Response, F::Response, G::Response,
        H::Response, I::Response, J::Response, K::Response, L::Response, M::Response, N::Response,
        O::Response, P::Response,
    );

    type Geometry = (
        A::Geometry, B::Geometry, C::Geometry, D::Geometry, E::Geometry, F::Geometry, G::Geometry,
        H::Geometry, I::Geometry, J::Geometry, K::Geometry, L::Geometry, M::Geometry, N::Geometry,
        O::Geometry, P::Geometry,
    );

    open spec fn operations(self) -> Seq<ArgOp> {
        let rest = (
            self.1, self.2, self.3, self.4, self.5, self.6, self.7, self.8, self.9, self.10,
            self.11, self.12, self.13, self.14, self.15,
        );
        self.0.operations() + rest.operations()
    }

    open spec fn has_shape(self, geometry: Self::Geometry) -> bool {
        &&& self.0.has_shape(geometry.0)
        &&& self.1.has_shape(geometry.1)
        &&& self.2.has_shape(geometry.2)
        &&& self.3.has_shape(geometry.3)
        &&& self.4.has_shape(geometry.4)
        &&& self.5.has_shape(geometry.5)
        &&& self.6.has_shape(geometry.6)
        &&& self.7.has_shape(geometry.7)
        &&& self.8.has_shape(geometry.8)
        &&& self.9.has_shape(geometry.9)
        &&& self.10.has_shape(geometry.10)
        &&& self.11.has_shape(geometry.11)
        &&& self.12.has_shape(geometry.12)
        &&& self.13.has_shape(geometry.13)
        &&& self.14.has_shape(geometry.14)
        &&& self.15.has_shape(geometry.15)
    }

    open spec fn expected(geometry: Self::Geometry) -> Seq<OperationId> {
        let rest = (
            geometry.1, geometry.2, geometry.3, geometry.4, geometry.5, geometry.6, geometry.7,
            geometry.8, geometry.9, geometry.10, geometry.11, geometry.12, geometry.13, geometry.14,
            geometry.15,
        );
        A::expected(geometry.0) + <(B, C, D, E, F, G, H, I, J, K, L, M, N, O, P) as CompoundRequest>::expected(rest)
    }

    open spec fn answered(
        geometry: Self::Geometry,
        replies: Seq<ResOp>,
        response: Self::Response,
    ) -> bool {
        let n = A::expected(geometry.0).len() as int;
        let rest = (
            geometry.1, geometry.2, geometry.3, geometry.4, geometry.5, geometry.6, geometry.7,
            geometry.8, geometry.9, geometry.10, geometry.11, geometry.12, geometry.13, geometry.14,
            geometry.15,
        );
        let gives = (
            response.1, response.2, response.3, response.4, response.5, response.6, response.7,
            response.8, response.9, response.10, response.11, response.12, response.13, response.14,
            response.15,
        );
        &&& A::answered(geometry.0, replies.take(n), response.0)
        &&& <(B, C, D, E, F, G, H, I, J, K, L, M, N, O, P) as CompoundRequest>::answered(rest, replies.skip(n), gives)
    }

    proof fn lemma_shape(self, geometry: Self::Geometry) {
        let rest = (
            self.1, self.2, self.3, self.4, self.5, self.6, self.7, self.8, self.9, self.10,
            self.11, self.12, self.13, self.14, self.15,
        );
        self.0.lemma_shape(geometry.0);
        rest.lemma_shape((
            geometry.1, geometry.2, geometry.3, geometry.4, geometry.5, geometry.6, geometry.7,
            geometry.8, geometry.9, geometry.10, geometry.11, geometry.12, geometry.13, geometry.14,
            geometry.15,
        ));
        lemma_operations_of_both(self.0.operations(), rest.operations());
    }

    fn into_arg_array(self) -> (parts: (Vec<ArgOp>, Self::Geometry)) {
        let rest = (
            self.1, self.2, self.3, self.4, self.5, self.6, self.7, self.8, self.9, self.10,
            self.11, self.12, self.13, self.14, self.15,
        );
        let (v, g0, tail) = pair_into_arg_array(self.0, rest);
        let (g1, g2, g3, g4, g5, g6, g7, g8, g9, g10, g11, g12, g13, g14, g15) = tail;
        (v, (g0, g1, g2, g3, g4, g5, g6, g7, g8, g9, g10, g11, g12, g13, g14, g15))
    }

    fn process_reply(res_array: &mut VecDeque<ResOp>, geometry: Self::Geometry) -> (response:
        Result<Self::Response>) {
        let rest = (
            geometry.1, geometry.2, geometry.3, geometry.4, geometry.5, geometry.6, geometry.7,
            geometry.8, geometry.9, geometry.10, geometry.11, geometry.12, geometry.13, geometry.14,
            geometry.15,
        );
        match pair_process_reply::<A, (B, C, D, E, F, G, H, I, J, K, L, M, N, O, P)>(res_array, geometry.0, rest) {
            Ok((r0, tail)) => {
                let (r1, r2, r3, r4, r5, r6, r7, r8, r9, r10, r11, r12, r13, r14, r15) = tail;
                Ok((r0, r1, r2, r3, r4, r5, r6, r7, r8, r9, r10, r11, r12, r13, r14, r15))
            },
            Err(e) => Err(e),
        }
    }
}

impl<
    A: CompoundRequest,
    B: CompoundRequest,
    C: CompoundRequest,
    D: CompoundRequest,
    E: CompoundRequest,
    F: CompoundRequest,
    G: CompoundRequest,
    H: CompoundRequest,
    I: CompoundRequest,
    J: CompoundRequest,
    K: CompoundRequest,
    L: CompoundRequest,
    M: CompoundRequest,
    N: CompoundRequest,
    O: CompoundRequest,
    P: CompoundRequest,
    Q: CompoundRequest,
> CompoundRequest for (A, B, C, D, E, F, G, H, I, J, K, L, M, N, O, P, Q) {
    type Response = (
        A::Response, B::Response, C::Response, D::Response, E::Response, F::Response, G::Response,
        H::Response, I::Response, J::Response, K::Response, L::Response, M::Response, N::Response,
        O::Response, P::Response, Q::Response,
    );

    type Geometry = (
        A::Geometry, B::Geometry, C::Geometry, D::Geometry, E::Geometry, F::Geometry, G::Geometry,
        H::Geometry, I::Geometry, J::Geometry, K::Geometry, L::Geometry, M::Geometry, N::Geometry,
        O::Geometry, P::Geometry, Q::Geometry,
    );

    open spec fn operations(self) -> Seq<ArgOp> {
        let rest = (
            self.1, self.2, self.3, self.4, self.5, self.6, self.7, self.8, self.9, self.10,
            self.11, self.12, self.13, self.14, self.15, self.16,
        );
        self.0.operations() + rest.operations()
    }

    open spec fn has_shape(self, geometry: Self::Geometry) -> bool {
        &&& self.0.has_shape(geometry.0)
        &&& self.1.has_shape(geometry.1)
        &&& self.2.has_shape(geometry.2)
        &&& self.3.has_shape(geometry.3)
        &&& self.4.has_shape(geometry.4)
        &&& self.5.has_shape(geometry.5)
        &&& self.6.has_shape(geometry.6)
        &&& self.7.has_shape(geometry.7)
        &&& self.8.has_shape(geometry.8)
        &&& self.9.has_shape(geometry.9)
        &&& self.10.has_shape(geometry.10)
        &&& self.11.has_shape(geometry.11)
        &&& self.12.has_shape(geometry.12)
        &&& self.13.has_shape(geometry.13)
        &&& self.14.has_shape(geometry.14)
        &&& self.15.has_shape(geometry.15)
        &&& self.16.has_shape(geometry.16)
    }

    open spec fn expected(geometry: Self::Geometry) -> Seq<OperationId> {
        let rest = (
            geometry.1, geometry.2, geometry.3, geometry.4, geometry.5, geometry.6, geometry.7,
            geometry.8, geometry.9, geometry.10, geometry.11, geometry.12, geometry.13, geometry.14,
            geometry.15, geometry.16,
        );
        A::expected(geometry.0) + <(B, C, D, E, F, G, H, I, J, K, L, M, N, O, P, Q) as CompoundRequest>::expected(rest)
    }

    open spec fn answered(
        geometry: Self::Geometry,
        replies: Seq<ResOp>,
        response: Self::Response,
    ) -> bool {
        let n = A::expected(geometry.0).len() as int;
        let rest = (
            geometry.1, geometry.2, geometry.3, geometry.4, geometry.5, geometry.6, geometry.7,
            geometry.8, geometry.9, geometry.10, geometry.11, geometry.12, geometry.13, geometry.14,
            geometry.15, geometry.16,
        );
        let gives = (
            response.1, response.2, response.3, response.4, response.5, response.6, response.7,
            response.8, response.9, response.10, response.11, response.12, response.13, response.14,
            response.15, response.16,
        );
        &&& A::answered(geometry.0, replies.take(n), response.0)
        &&& <(B, C, D, E, F, G, H, I, J, K, L, M, N, O, P, Q) as CompoundRequest>::answered(rest, replies.skip(n), gives)
    }

    proof fn lemma_shape(self, geometry: Self::Geometry) {
        let rest = (
            self.1, self.2, self.3, self.4, self.5, self.6, self.7, self.8, self.9, self.10,
            self.11, self.12, self.13, self.14, self.15, self.16,
        );
        self.0.lemma_shape(geometry.0);
        rest.lemma_shape((
            geometry.1, geometry.2, geometry.3, geometry.4, geometry.5, geometry.6, geometry.7,
            geometry.8, geometry.9, geometry.10, geometry.11, geometry.12, geometry.13, geometry.14,
            geometry.15, geometry.16,
        ));
        lemma_operations_of_both(self.0.operations(), rest.operations());
    }

    fn into_arg_array(self) -> (parts: (Vec<ArgOp>, Self::Geometry)) {
        let rest = (
            self.1, self.2, self.3, self.4, self.5, self.6, self.7, self.8, self.9, self.10,
            self.11, self.12, self.13, self.14, self.15, self.16,
        );
        let (v, g0, tail) = pair_into_arg_array(self.0, rest);
        let (g1, g2, g3, g4, g5, g6, g7, g8, g9, g10, g11, g12, g13, g14, g15, g16) = tail;
        (v, (g0, g1, g2, g3, g4, g5, g6, g7, g8, g9, g10, g11, g12, g13, g14, g15, g16))
    }

    fn process_reply(res_array: &mut VecDeque<ResOp>, geometry: Self::Geometry) -> (response:
        Result<Self::Response>) {
        let rest = (
            geometry.1, geometry.2, geometry.3, geometry.4, geometry.5, geometry.6, geometry.7,
            geometry.8, geometry.9, geometry.10, geometry.11, geometry.12, geometry.13, geometry.14,
            geometry.15, geometry.16,
        );
        match pair_process_reply::<A, (B, C, D, E, F, G, H, I, J, K, L, M, N, O, P, Q)>(res_array, geometry.0, rest) {
            Ok((r0, tail)) => {
                let (
                    r1, r2, r3, r4, r5, r6, r7, r8, r9, r10, r11, r12, r13, r14, r15, r16,
                ) = tail;
                Ok((r0, r1, r2, r3, r4, r5, r6, r7, r8, r9, r10, r11, r12, r13, r14, r15, r16))
            },
            Err(e) => Err(e),
        }
    }
}

} // verus!
