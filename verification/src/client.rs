//! What a client that tries the service out sends, what it prints, and what
//! it counts of a listing that it receives.
//!
//! A trial registers its five customers a random number of times, looks a
//! random number of them up again, lists the registry and removes what it
//! registered. What it sends is decided here; the sending is not.

use crate::erro::Status;
use crate::proto::{
    ClientePageResponse, ClienteResponse, ClienteResponseView, NovoClienteRequest,
    NovoClienteRequestView,
};
use rand::seq::SliceRandom;
use rand::Rng;
use vstd::prelude::*;
use vstd::string::{to_string_from_display_ensures, StringExecFns};

verus! {

/// A number drawn at random from `min` up to, but not including, `max`.
///
/// Calls `gen_range` of the crate rand on the generator of the current
/// thread, with the half-open range `min..max`. Of the number it is claimed
/// only that it lies in that range, which is what rand documents; rand
/// panics on an empty range, so the range must not be empty. It panics too
/// if the system gives the generator no seed, which no caller can rule out.
#[verifier::external_body]
fn sorteia(min: usize, max: usize) -> (r: usize)
    requires
        min < max,
    ensures
        min <= r < max,
{
    rand::thread_rng().gen_range(min..max)
}

/// One of the given ids, drawn at random, or `None` if there is none.
///
/// Calls `choose` of the crate rand on the slice of the ids, with the
/// generator of the current thread. It is claimed that the result is `None`
/// for no ids and otherwise one of them, as rand documents; nothing is
/// claimed of which one. As to the generator's seed, see [`sorteia`].
#[verifier::external_body]
fn escolhe(ids: &Vec<i32>) -> (r: Option<i32>)
    ensures
        ids@.len() == 0 ==> r is None,
        ids@.len() > 0 ==> r is Some && ids@.contains(r->0),
{
    ids.choose(&mut rand::thread_rng()).copied()
}

/// The five customers of a trial, in the order in which they are registered.
pub open spec fn clientes_de_teste() -> Seq<NovoClienteRequestView> {
    seq![
        NovoClienteRequestView {
            nome: "Beltrano de Souza"@,
            pj: false,
            docto: "999.999.999-99"@,
        },
        NovoClienteRequestView { nome: "Fulano de Tal"@, pj: false, docto: "888.888.888-88"@ },
        NovoClienteRequestView { nome: "Empresa S/A"@, pj: true, docto: "99.999.999/9999-99"@ },
        NovoClienteRequestView { nome: "Ciclano da Silva"@, pj: false, docto: "777.777.777-77"@ },
        NovoClienteRequestView {
            nome: "Outra Empresa LTDA"@,
            pj: true,
            docto: "99.999.999/9999-99"@,
        },
    ]
}

/// The content of a vector of requests.
pub open spec fn pedidos(v: Seq<NovoClienteRequest>) -> Seq<NovoClienteRequestView> {
    v.map_values(|c: NovoClienteRequest| c@)
}

/// The five customers that a trial registers, again and again.
pub fn gera_clientes() -> (r: Vec<NovoClienteRequest>)
    ensures
        pedidos(r@) == clientes_de_teste(),
{
    let mut v: Vec<NovoClienteRequest> = Vec::new();
    v.push(
        NovoClienteRequest {
            nome: "Beltrano de Souza".to_owned(),
            pj: false,
            docto: "999.999.999-99".to_owned(),
        },
    );
    v.push(
        NovoClienteRequest {
            nome: "Fulano de Tal".to_owned(),
            pj: false,
            docto: "888.888.888-88".to_owned(),
        },
    );
    v.push(
        NovoClienteRequest {
            nome: "Empresa S/A".to_owned(),
            pj: true,
            docto: "99.999.999/9999-99".to_owned(),
        },
    );
    v.push(
        NovoClienteRequest {
            nome: "Ciclano da Silva".to_owned(),
            pj: false,
            docto: "777.777.777-77".to_owned(),
        },
    );
    v.push(
        NovoClienteRequest {
            nome: "Outra Empresa LTDA".to_owned(),
            pj: true,
            docto: "99.999.999/9999-99".to_owned(),
        },
    );
    assert(pedidos(v@) =~= clientes_de_teste());
    v
}

/// How many trials run at once: a number drawn from 15 up to, but not
/// including, 50.
pub fn sorteia_testes() -> (n: u32)
    ensures
        15 <= n < 50,
{
    let n: usize = sorteia(15, 50);
    n as u32
}

/// The requests of a trial that registers its five customers `vezes` times
/// over: the five in their order, then the five again, and so on.
pub open spec fn cadastros(vezes: int) -> Seq<NovoClienteRequestView> {
    Seq::new((vezes * 5) as nat, |i: int| clientes_de_teste()[i % 5])
}

/// The requests of a trial that registers its five customers `vezes` times
/// over, in the order in which they are sent.
pub fn plano_cadastro(vezes: usize) -> (r: Vec<NovoClienteRequest>)
    ensures
        pedidos(r@) == cadastros(vezes as int),
{
    let clientes = gera_clientes();
    assert(clientes@.len() == 5) by {
        assert(pedidos(clientes@).len() == 5);
    }
    let mut plano: Vec<NovoClienteRequest> = Vec::new();
    let mut n: usize = 0;
    while n < vezes
        invariant
            n <= vezes,
            clientes@.len() == 5,
            pedidos(clientes@) == clientes_de_teste(),
            pedidos(plano@) == cadastros(n as int),
        decreases vezes - n,
    {
        assert(plano@.len() == n * 5 && forall|k: int|
            0 <= k < plano@.len() ==> (#[trigger] plano@[k])@ == clientes_de_teste()[k % 5]) by {
            assert(pedidos(plano@).len() == cadastros(n as int).len());
            assert forall|k: int| 0 <= k < plano@.len() implies (#[trigger] plano@[k])@
                == clientes_de_teste()[k % 5] by {
                assert(pedidos(plano@)[k] == plano@[k]@);
            }
        }
        let mut i: usize = 0;
        while i < 5
            invariant
                i <= 5,
                n < vezes,
                clientes@.len() == 5,
                pedidos(clientes@) == clientes_de_teste(),
                plano@.len() == n * 5 + i,
                forall|k: int|
                    0 <= k < plano@.len() ==> (#[trigger] plano@[k])@ == clientes_de_teste()[k % 5],
            decreases 5 - i,
        {
            let c = clientes[i].clone();
            assert(c@ == clientes_de_teste()[i as int]) by {
                assert(pedidos(clientes@)[i as int] == clientes@[i as int]@);
            }
            plano.push(c);
            i = i + 1;
        }
        n = n + 1;
        assert(pedidos(plano@) =~= cadastros(n as int));
    }
    plano
}

/// The requests of a trial that registers its five customers a random
/// number of times over, at least once and fewer than 50 times.
pub fn sorteia_cadastros() -> (r: Vec<NovoClienteRequest>)
    ensures
        exists|vezes: int| 1 <= vezes < 50 && pedidos(r@) == cadastros(vezes),
{
    let vezes: usize = sorteia(1, 50);
    plano_cadastro(vezes)
}

/// The ids that a trial looks up again, of those that it registered: a
/// random number of them, at least one and fewer than were registered, each
/// drawn at random, so that an id may come more than once.
///
/// At least two ids must have been registered, and at most 2^31, so that
/// the number of lookups fits a signed 32-bit count.
pub fn sorteia_consultas(cadastrados: &Vec<i32>) -> (r: Vec<i32>)
    requires
        2 <= cadastrados@.len() <= 0x8000_0000,
    ensures
        1 <= r@.len() < cadastrados@.len(),
        forall|i: int| 0 <= i < r@.len() ==> cadastrados@.contains(#[trigger] r@[i]),
{
    let num: usize = sorteia(1, cadastrados.len());
    let mut ids: Vec<i32> = Vec::new();
    let mut i: usize = 0;
    while i < num
        invariant
            i <= num,
            cadastrados@.len() >= 2,
            ids@.len() == i,
            forall|k: int| 0 <= k < ids@.len() ==> cadastrados@.contains(#[trigger] ids@[k]),
        decreases num - i,
    {
        let id = escolhe(cadastrados).unwrap();
        ids.push(id);
        i = i + 1;
    }
    ids
}

/// The text that shows a customer, given the decimal digits of its id and of
/// its kind: five lines, each a label and a value.
pub open spec fn texto_cliente(id: Seq<char>, tipo: Seq<char>, c: ClienteResponseView) -> Seq<
    char,
> {
    "ID: "@ + id + "\nTipo: "@ + tipo + "\nNome: "@ + c.nome + "\nPessoa jurídica? "@ + (if c.pj {
        "true"@
    } else {
        "false"@
    }) + "\nDocumento: "@ + c.docto + "\n"@
}

/// The text that shows a customer to whoever runs a trial.
pub fn descreve_cliente(res: &ClienteResponse) -> (r: String)
    ensures
        exists|id: String, tipo: String|
            to_string_from_display_ensures::<i32>(&res.id, id) && to_string_from_display_ensures::<
                i32,
            >(&res.tipo, tipo) && r@ == texto_cliente(id@, tipo@, res@),
{
    let id = res.id.to_string();
    let tipo = res.tipo.to_string();
    let mut s = "ID: ".to_owned();
    s.append(id.as_str());
    s.append("\nTipo: ");
    s.append(tipo.as_str());
    s.append("\nNome: ");
    s.append(res.nome.as_str());
    s.append("\nPessoa jurídica? ");
    s.append(if res.pj {
        "true"
    } else {
        "false"
    });
    s.append("\nDocumento: ");
    s.append(res.docto.as_str());
    s.append("\n");
    assert(s@ =~= texto_cliente(id@, tipo@, res@));
    s
}

/// What a client has seen of a listing so far: how many pages, and how many
/// customers on them.
#[derive(Clone, Copy, Debug, PartialEq, Eq, Structural)]
pub struct Contagem {
    pub paginas: u64,
    pub clientes: u64,
}

/// The count after `n` more customers on one more page. A count that has
/// reached the largest number it can hold stays there.
pub open spec fn mais_uma(c: Contagem, n: int) -> Contagem {
    Contagem {
        paginas: if c.paginas + 1 > u64::MAX {
            u64::MAX
        } else {
            (c.paginas + 1) as u64
        },
        clientes: if c.clientes + n > u64::MAX {
            u64::MAX
        } else {
            (c.clientes + n) as u64
        },
    }
}

impl Contagem {
    /// The count before anything has arrived.
    pub fn new() -> (r: Contagem)
        ensures
            r == (Contagem { paginas: 0, clientes: 0 }),
    {
        Contagem { paginas: 0, clientes: 0 }
    }

    /// Takes in the next item of the stream and says whether to go on
    /// reading. A page is counted and reading goes on; a status ends the
    /// reading and leaves the count as it is.
    pub fn registra(&mut self, item: &Result<ClientePageResponse, Status>) -> (segue: bool)
        ensures
            match *item {
                Ok(p) => segue && *final(self) == mais_uma(*old(self), p@.len() as int),
                Err(_) => !segue && *final(self) == *old(self),
            },
    {
        match item {
            Ok(p) => {
                let n: usize = p.clientes.len();
                let paginas: u64 = if self.paginas < u64::MAX {
                    self.paginas + 1
                } else {
                    u64::MAX
                };
                let clientes: u64 = if n as u64 <= u64::MAX - self.clientes {
                    self.clientes + n as u64
                } else {
                    u64::MAX
                };
                self.paginas = paginas;
                self.clientes = clientes;
                true
            },
            Err(_) => false,
        }
    }
}

} // verus!
