use vstd::prelude::*;

verus! {

/// A fixed-point decimal: the value is `mantisa / 10^escala`.
#[derive(Debug, Clone, Copy, PartialEq, Eq, Structural)]
pub struct DecimalFijo {
    pub mantisa: i128,
    pub escala: u32,
}

pub open spec fn pow10(n: nat) -> int
    decreases n,
{
    if n == 0 {
        1
    } else {
        10 * pow10((n - 1) as nat)
    }
}

proof fn lemma_pow10_positivo(n: nat)
    ensures
        pow10(n) >= 1,
    decreases n,
{
    if n > 0 {
        lemma_pow10_positivo((n - 1) as nat);
    }
}

impl DecimalFijo {
    /// `-limite <= self <= limite`, exactly.
    pub open spec fn acotado_por(self, limite: int) -> bool {
        let p = pow10(self.escala as nat);
        -(limite * p) <= self.mantisa as int && self.mantisa as int <= limite * p
    }

    /// The value is strictly greater than zero.
    pub open spec fn es_positivo(self) -> bool {
        self.mantisa > 0
    }

    pub fn positivo(&self) -> (r: bool)
        ensures
            r == self.es_positivo(),
    {
        self.mantisa > 0
    }

    /// Whether the value lies in `[-limite, limite]`.
    pub fn dentro_de(&self, limite: i128) -> (r: bool)
        requires
            limite > 0,
        ensures
            r == self.acotado_por(limite as int),
    {
        let mut cota: i128 = limite;
        let mut desborda = false;
        let mut k: u32 = 0;
        while k < self.escala
            invariant
                0 <= k <= self.escala,
                limite > 0,
                cota > 0,
                !desborda ==> cota as int == limite as int * pow10(k as nat),
                desborda ==> limite as int * pow10(k as nat) > i128::MAX,
            decreases self.escala - k,
        {
            proof {
                lemma_pow10_positivo(k as nat);
            }
            let ghost p = pow10(k as nat);
            assert(pow10((k + 1) as nat) == 10 * p);
            assert(limite as int * (10 * p) == (limite as int * p) * 10) by (nonlinear_arith);
            if !desborda {
                match cota.checked_mul(10) {
                    Some(c) => {
                        cota = c;
                    },
                    None => {
                        desborda = true;
                    },
                }
            } else {
                assert((limite as int * p) * 10 >= limite as int * p) by (nonlinear_arith)
                    requires
                        limite as int * p > 0,
                ;
            }
            k = k + 1;
        }
        if desborda {
            true
        } else {
            -cota <= self.mantisa && self.mantisa <= cota
        }
    }
}

} // verus!
